//! The environment variables that configure the layer, read from a snapshot of
//! the process environment.
use vstd::prelude::*;

use crate::config::ScaleSpec;
use crate::text::parse_u32;
use crate::text::parse_unsigned_spec;
use crate::text::str_eq;
use crate::toml_doc::find_entry;

verus! {

pub const ENV_CONFIG_NAME: &'static str = "BONES_CONFIG_NAME";
pub const ENV_CONFIG: &'static str = "BONES_CONFIG";
pub const ENV_LOG: &'static str = "BONES_LOG";
pub const ENV_RES_SCALE: &'static str = "BONES_RESOLUTION_SCALE";
pub const ENV_OPT_DYNREN: &'static str = "BONES_OPTIMIZE_DYNAMIC_RENDERING";
pub const ENV_OPT_PUSHDESC: &'static str = "BONES_OPTIMIZE_PUSH_DESCRIPTORS";
pub const ENV_OPT_SYNC2: &'static str = "BONES_OPTIMIZE_SYNC2";
pub const ENV_OPT_MUTABLE_FMT: &'static str = "BONES_OPTIMIZE_MUTABLE_FORMAT";
pub const ENV_OPT_ASYNC_COMPUTE: &'static str = "BONES_OPTIMIZE_ASYNC_COMPUTE";
pub const ENV_COMPUTE: &'static str = "BONES_COMPUTE";
pub const ENV_COMPUTE_X: &'static str = "BONES_COMPUTE_X";
pub const ENV_COMPUTE_Y: &'static str = "BONES_COMPUTE_Y";
pub const ENV_ENABLE: &'static str = "BONES_ENABLE";
pub const ENV_HOME: &'static str = "HOME";
pub const DEFAULT_PROFILE: &'static str = "bones";
pub const DEFAULT_LOG_LEVEL: &'static str = "warn";
pub const FALLBACK_HOME: &'static str = "/tmp";

/// A snapshot of the process environment: the variables whose names and values
/// are valid Unicode, in the order the process lists them.
pub struct EnvVars {
    pub vars: Vec<(String, String)>,
}

/// The views of an optional string.
pub open spec fn opt_str(o: Option<String>) -> Option<Seq<char>> {
    match o {
        Some(s) => Some(s@),
        None => None,
    }
}

/// The value of `key` (`env::var`).
pub open spec fn env_value(vars: Seq<(String, String)>, key: Seq<char>) -> Option<Seq<char>> {
    opt_str(find_entry(vars, key))
}

/// The value of `key` when it is set to a non-empty string.
pub open spec fn nonempty_value(vars: Seq<(String, String)>, key: Seq<char>) -> Option<Seq<char>> {
    match env_value(vars, key) {
        Some(v) => if v.len() > 0 {
            Some(v)
        } else {
            None
        },
        None => None,
    }
}

/// `1`/`true` and `0`/`false`.
pub open spec fn parse_bool_spec(s: Seq<char>) -> Option<bool> {
    if s == "1"@ || s == "true"@ {
        Some(true)
    } else if s == "0"@ || s == "false"@ {
        Some(false)
    } else {
        None
    }
}

/// A boolean variable: its value when it is set and reads as a boolean, else `default`.
pub open spec fn env_bool_spec(vars: Seq<(String, String)>, key: Seq<char>, default: bool) -> bool {
    match nonempty_value(vars, key) {
        Some(v) => match parse_bool_spec(v) {
            Some(b) => b,
            None => default,
        },
        None => default,
    }
}

/// An unsigned variable: its value when it is set and reads as a `u32`, else `default`.
pub open spec fn env_uint_spec(vars: Seq<(String, String)>, key: Seq<char>, default: u32) -> u32 {
    match nonempty_value(vars, key) {
        Some(v) => match parse_unsigned_spec(v, u32::MAX as nat) {
            Some(n) => n as u32,
            None => default,
        },
        None => default,
    }
}

/// A text variable: its value when it is set and not empty, else `default`.
pub open spec fn env_string_spec(vars: Seq<(String, String)>, key: Seq<char>, default: Seq<char>) -> Seq<char> {
    match nonempty_value(vars, key) {
        Some(v) => v,
        None => default,
    }
}

/// Env-mode: one of the pipeline variables is set, even to an empty string.
pub open spec fn env_mode_spec(vars: Seq<(String, String)>) -> bool {
    ||| env_value(vars, ENV_CONFIG@) is Some
    ||| env_value(vars, ENV_RES_SCALE@) is Some
    ||| env_value(vars, ENV_OPT_DYNREN@) is Some
    ||| env_value(vars, ENV_OPT_PUSHDESC@) is Some
    ||| env_value(vars, ENV_OPT_SYNC2@) is Some
    ||| env_value(vars, ENV_OPT_MUTABLE_FMT@) is Some
    ||| env_value(vars, ENV_OPT_ASYNC_COMPUTE@) is Some
    ||| env_value(vars, ENV_COMPUTE@) is Some
    ||| env_value(vars, ENV_COMPUTE_X@) is Some
    ||| env_value(vars, ENV_COMPUTE_Y@) is Some
}

/// The home directory: `HOME` as it is set, else `/tmp`.
pub open spec fn home_spec(vars: Seq<(String, String)>) -> Seq<char> {
    match env_value(vars, ENV_HOME@) {
        Some(h) => h,
        None => FALLBACK_HOME@,
    }
}

impl EnvVars {
    /// The value of `key`, if it is set.
    pub fn var(&self, key: &str) -> (r: Option<String>)
        ensures
            opt_str(r) == env_value(self.vars@, key@),
    {
        let mut i: usize = 0;
        assert(self.vars@.skip(0) =~= self.vars@);
        while i < self.vars.len()
            invariant
                i <= self.vars.len(),
                find_entry(self.vars@, key@) == find_entry(self.vars@.skip(i as int), key@),
            decreases self.vars.len() - i,
        {
            assert(self.vars@.skip(i as int).drop_first() =~= self.vars@.skip(i + 1));
            if str_eq(self.vars[i].0.as_str(), key) {
                return Some(self.vars[i].1.as_str().to_owned());
            }
            i = i + 1;
        }
        None
    }
}

/// `1`/`true` and `0`/`false`.
pub fn parse_bool(s: &str) -> (r: Option<bool>)
    ensures
        r == parse_bool_spec(s@),
{
    if str_eq(s, "1") || str_eq(s, "true") {
        Some(true)
    } else if str_eq(s, "0") || str_eq(s, "false") {
        Some(false)
    } else {
        None
    }
}

/// A `u32` in the form `str::parse` accepts.
pub fn parse_uint(s: &str) -> (r: Option<u32>)
    ensures
        r matches Some(v) ==> parse_unsigned_spec(s@, u32::MAX as nat) == Some(v as nat),
        r is None ==> parse_unsigned_spec(s@, u32::MAX as nat) is None,
{
    parse_u32(s)
}

/// The value of `key` when it is set and not empty.
pub fn read_var(env: &EnvVars, key: &str) -> (r: Option<String>)
    ensures
        opt_str(r) == nonempty_value(env.vars@, key@),
{
    match env.var(key) {
        Some(v) => if v.as_str().unicode_len() > 0 {
            Some(v)
        } else {
            None
        },
        None => None,
    }
}

/// Whether `key` is set at all.
pub fn key_is_active(env: &EnvVars, key: &str) -> (r: bool)
    ensures
        r == (env_value(env.vars@, key@) is Some),
{
    env.var(key).is_some()
}

/// Whether env-mode is on: any pipeline variable is set, even to an empty string.
pub fn env_bypass_active(env: &EnvVars) -> (r: bool)
    ensures
        r == env_mode_spec(env.vars@),
{
    key_is_active(env, ENV_CONFIG) || key_is_active(env, ENV_RES_SCALE) || key_is_active(env, ENV_OPT_DYNREN)
        || key_is_active(env, ENV_OPT_PUSHDESC) || key_is_active(env, ENV_OPT_SYNC2) || key_is_active(
        env,
        ENV_OPT_MUTABLE_FMT,
    ) || key_is_active(env, ENV_OPT_ASYNC_COMPUTE) || key_is_active(env, ENV_COMPUTE) || key_is_active(
        env,
        ENV_COMPUTE_X,
    ) || key_is_active(env, ENV_COMPUTE_Y)
}

/// A boolean variable, `default` when unset, empty or unreadable.
pub fn env_bool(env: &EnvVars, key: &str, default: bool) -> (r: bool)
    ensures
        r == env_bool_spec(env.vars@, key@, default),
{
    match read_var(env, key) {
        Some(v) => match parse_bool(v.as_str()) {
            Some(b) => b,
            None => default,
        },
        None => default,
    }
}

/// An unsigned variable, `default` when unset, empty or unreadable.
pub fn env_uint(env: &EnvVars, key: &str, default: u32) -> (r: u32)
    ensures
        r == env_uint_spec(env.vars@, key@, default),
{
    match read_var(env, key) {
        Some(v) => match parse_uint(v.as_str()) {
            Some(n) => n,
            None => default,
        },
        None => default,
    }
}

/// A text variable, `default` when unset or empty.
pub fn env_string(env: &EnvVars, key: &str, default: &str) -> (r: String)
    ensures
        r@ == env_string_spec(env.vars@, key@, default@),
{
    match read_var(env, key) {
        Some(v) => v,
        None => default.to_owned(),
    }
}

/// The log level name (`BONES_LOG`, default `warn`).
pub fn env_log_level(env: &EnvVars) -> (r: String)
    ensures
        r@ == env_string_spec(env.vars@, ENV_LOG@, DEFAULT_LOG_LEVEL@),
{
    env_string(env, ENV_LOG, DEFAULT_LOG_LEVEL)
}

/// The profile name as set (`BONES_CONFIG_NAME`, default `bones`), before sanitizing.
pub fn env_config_name(env: &EnvVars) -> (r: String)
    ensures
        r@ == env_string_spec(env.vars@, ENV_CONFIG_NAME@, DEFAULT_PROFILE@),
{
    env_string(env, ENV_CONFIG_NAME, DEFAULT_PROFILE)
}

/// The inline effect list (`BONES_CONFIG`), when set and not empty.
pub fn env_config_inline(env: &EnvVars) -> (r: Option<String>)
    ensures
        opt_str(r) == nonempty_value(env.vars@, ENV_CONFIG@),
{
    read_var(env, ENV_CONFIG)
}

/// The home directory: `HOME` as set, else `/tmp`.
pub fn env_home(env: &EnvVars) -> (r: String)
    ensures
        r@ == home_spec(env.vars@),
{
    match env.var(ENV_HOME) {
        Some(h) => h,
        None => FALLBACK_HOME.to_owned(),
    }
}

/// The resolution scale as set in the environment: its text when set and not
/// empty, else the default.
pub fn env_res_scale(env: &EnvVars) -> (r: ScaleSpec)
    ensures
        match r {
            ScaleSpec::Text(t) => nonempty_value(env.vars@, ENV_RES_SCALE@) == Some(t@),
            ScaleSpec::Default => nonempty_value(env.vars@, ENV_RES_SCALE@) is None,
            _ => false,
        },
{
    match read_var(env, ENV_RES_SCALE) {
        Some(t) => ScaleSpec::Text(t),
        None => ScaleSpec::Default,
    }
}


proof fn lemma_lookup_skips(p: (String, String), vars: Seq<(String, String)>, key: Seq<char>)
    requires
        p.0@ != key,
    ensures
        env_value(seq![p] + vars, key) == env_value(vars, key),
{
    let all = seq![p] + vars;
    assert(all[0] == p);
    assert(all.drop_first() =~= vars);
}

/// `BONES_LOG` and `BONES_CONFIG_NAME` are meta settings: setting one of them
/// never turns env-mode on or off.
pub proof fn law_meta_vars_keep_mode(p: (String, String), vars: Seq<(String, String)>)
    requires
        p.0@ == ENV_LOG@ || p.0@ == ENV_CONFIG_NAME@,
    ensures
        env_mode_spec(seq![p] + vars) == env_mode_spec(vars),
{
    reveal_strlit("BONES_LOG");
    reveal_strlit("BONES_CONFIG_NAME");
    reveal_strlit("BONES_CONFIG");
    reveal_strlit("BONES_RESOLUTION_SCALE");
    reveal_strlit("BONES_OPTIMIZE_DYNAMIC_RENDERING");
    reveal_strlit("BONES_OPTIMIZE_PUSH_DESCRIPTORS");
    reveal_strlit("BONES_OPTIMIZE_SYNC2");
    reveal_strlit("BONES_OPTIMIZE_MUTABLE_FORMAT");
    reveal_strlit("BONES_OPTIMIZE_ASYNC_COMPUTE");
    reveal_strlit("BONES_COMPUTE");
    reveal_strlit("BONES_COMPUTE_X");
    reveal_strlit("BONES_COMPUTE_Y");
    assert(ENV_LOG@.len() == 9);
    assert(ENV_CONFIG_NAME@.len() == 17);
    assert(ENV_CONFIG@.len() == 12);
    assert(ENV_RES_SCALE@.len() == 22);
    assert(ENV_OPT_DYNREN@.len() == 32);
    assert(p.0@ != ENV_CONFIG@);
    assert(p.0@ != ENV_RES_SCALE@);
    assert(p.0@ != ENV_OPT_DYNREN@);
    lemma_lookup_skips(p, vars, ENV_CONFIG@);
    lemma_lookup_skips(p, vars, ENV_RES_SCALE@);
    lemma_lookup_skips(p, vars, ENV_OPT_DYNREN@);
    lemma_lookup_skips(p, vars, ENV_OPT_PUSHDESC@);
    lemma_lookup_skips(p, vars, ENV_OPT_SYNC2@);
    lemma_lookup_skips(p, vars, ENV_OPT_MUTABLE_FMT@);
    lemma_lookup_skips(p, vars, ENV_OPT_ASYNC_COMPUTE@);
    lemma_lookup_skips(p, vars, ENV_COMPUTE@);
    lemma_lookup_skips(p, vars, ENV_COMPUTE_X@);
    lemma_lookup_skips(p, vars, ENV_COMPUTE_Y@);
}

} // verus!
