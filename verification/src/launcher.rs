//! The `bones` launcher: reading its arguments, choosing the profile, and the
//! command and environment it runs a game with, natively or through Flatpak.
use vstd::prelude::*;

use crate::config::config_dir_spec;
use crate::config::config_file_spec;
use crate::config::config_path;
use crate::config::sanitize_name;
use crate::config::sanitized;
use crate::env::env_bypass_active;
use crate::env::env_mode_spec;
use crate::env::env_value;
use crate::env::home_spec;
use crate::env::opt_str;
use crate::env::EnvVars;
use crate::env::DEFAULT_PROFILE;
use crate::env::ENV_CONFIG_NAME;
use crate::env::ENV_ENABLE;
use crate::text::lines;
use crate::text::lines_spec;
use crate::text::piece_in_list;
use crate::text::split_spec;
use crate::text::starts_with;
use crate::text::starts_with_spec;
use crate::text::ends_with;
use crate::text::ends_with_spec;
use crate::text::str_eq;
use crate::text::trim;
use crate::text::trim_spec;
use crate::text::views;

verus! {

pub const FLATPAK_CMD: &'static str = "flatpak";
pub const FLATPAK_RUN: &'static str = "run";
pub const FLATPAK_INJECT: &'static str = "/usr/lib/extensions/vulkan/bones/bin/bones-flatpak";
pub const FLATPAK_META_KEY: &'static str = "command=";
pub const LAYER_NAME: &'static str = "VK_LAYER_BONES_overlay";
pub const ENABLE_VALUE: &'static str = "1";
pub const ENV_PRELOAD: &'static str = "LD_PRELOAD";
pub const ENV_VK_ADD_LAYER_PATH: &'static str = "VK_ADD_LAYER_PATH";
pub const ENV_VK_INSTANCE_LAYERS: &'static str = "VK_INSTANCE_LAYERS";
pub const ENV_SEP: char = ':';
pub const ARG_SEPARATOR: &'static str = "--";
pub const EXIT_OK: i32 = 0;
pub const EXIT_USAGE: i32 = 1;
pub const EXIT_EXEC_FAILED: i32 = 127;

/// `--help` or `-h`.
pub open spec fn is_help_spec(a: Seq<char>) -> bool {
    a == "--help"@ || a == "-h"@
}

/// The index of the first item equal to `x` from `i` on, or the length.
pub open spec fn first_eq_from(s: Seq<Seq<char>>, x: Seq<char>, i: int) -> int
    decreases s.len() - i,
{
    if i >= s.len() {
        s.len() as int
    } else if s[i] == x {
        i
    } else {
        first_eq_from(s, x, i + 1)
    }
}

/// The index of the first item not starting with `-` from `i` on, or the length.
pub open spec fn first_nondash_from(s: Seq<Seq<char>>, i: int) -> int
    decreases s.len() - i,
{
    if i >= s.len() {
        s.len() as int
    } else if !starts_with_spec(s[i], "-"@) {
        i
    } else {
        first_nondash_from(s, i + 1)
    }
}

proof fn lemma_first_eq_bounds(s: Seq<Seq<char>>, x: Seq<char>, i: int)
    requires
        0 <= i <= s.len(),
    ensures
        i <= first_eq_from(s, x, i) <= s.len(),
        first_eq_from(s, x, i) < s.len() ==> s[first_eq_from(s, x, i)] == x,
        forall|j: int| i <= j < first_eq_from(s, x, i) ==> s[j] != x,
    decreases s.len() - i,
{
    if i < s.len() && s[i] != x {
        lemma_first_eq_bounds(s, x, i + 1);
    }
}

proof fn lemma_first_nondash_bounds(s: Seq<Seq<char>>, i: int)
    requires
        0 <= i <= s.len(),
    ensures
        i <= first_nondash_from(s, i) <= s.len(),
        forall|j: int| i <= j < first_nondash_from(s, i) ==> starts_with_spec(s[j], "-"@),
    decreases s.len() - i,
{
    if i < s.len() && starts_with_spec(s[i], "-"@) {
        lemma_first_nondash_bounds(s, i + 1);
    }
}

/// Whether `a` asks for help.
pub fn is_help_flag(a: &str) -> (r: bool)
    ensures
        r == is_help_spec(a@),
{
    str_eq(a, "--help") || str_eq(a, "-h")
}

/// The position of the first `x` in `v` at or after `from`, or the length.
fn position_from(v: &Vec<String>, x: &str, from: usize) -> (r: usize)
    requires
        from <= v.len(),
    ensures
        r == first_eq_from(views(v@), x@, from as int),
{
    let mut i = from;
    while i < v.len()
        invariant
            from <= i <= v.len(),
            first_eq_from(views(v@), x@, from as int) == first_eq_from(views(v@), x@, i as int),
        decreases v.len() - i,
    {
        assert(views(v@)[i as int] == v@[i as int]@);
        if str_eq(v[i].as_str(), x) {
            return i;
        }
        i = i + 1;
    }
    i
}

/// Whether help is asked for before the `--` separator.
pub open spec fn wants_help_spec(args: Seq<Seq<char>>) -> bool {
    exists|i: int| 0 <= i < first_eq_from(args, "--"@, 0) && is_help_spec(#[trigger] args[i])
}

/// Whether the arguments ask for help (before `--`).
pub fn wants_help(args: &Vec<String>) -> (r: bool)
    ensures
        r == wants_help_spec(views(args@)),
{
    let pos = position_from(args, ARG_SEPARATOR, 0);
    proof {
        lemma_first_eq_bounds(views(args@), "--"@, 0);
    }
    let mut i: usize = 0;
    while i < pos
        invariant
            i <= pos <= args.len(),
            pos == first_eq_from(views(args@), "--"@, 0),
            forall|j: int| 0 <= j < i ==> !is_help_spec(#[trigger] views(args@)[j]),
        decreases pos - i,
    {
        assert(views(args@)[i as int] == args@[i as int]@);
        if is_help_flag(args[i].as_str()) {
            return true;
        }
        i = i + 1;
    }
    false
}

/// A copy of `v[from..to]`.
fn slice_strings(v: &Vec<String>, from: usize, to: usize) -> (r: Vec<String>)
    requires
        from <= to <= v.len(),
    ensures
        views(r@) == views(v@).subrange(from as int, to as int),
{
    let mut out: Vec<String> = Vec::new();
    let mut i = from;
    while i < to
        invariant
            from <= i <= to <= v.len(),
            views(out@) == views(v@).subrange(from as int, i as int),
        decreases to - i,
    {
        let ghost before = out@;
        let c = v[i].as_str().to_owned();
        out.push(c);
        assert(views(v@)[i as int] == v@[i as int]@);
        assert(views(out@) =~= views(before).push(c@));
        assert(views(v@).subrange(from as int, i + 1) =~= views(v@).subrange(from as int, i as int).push(v@[i as int]@));
        i = i + 1;
    }
    out
}

/// The launcher's own arguments (before `--`) and the command (after it).
pub open spec fn split_args_spec(args: Seq<Seq<char>>) -> (Seq<Seq<char>>, Seq<Seq<char>>) {
    let p = first_eq_from(args, "--"@, 0);
    (args.subrange(0, p), if p < args.len() {
        args.subrange(p + 1, args.len() as int)
    } else {
        Seq::empty()
    })
}

/// The arguments before the first `--`, and those after it.
pub fn split_args(args: &Vec<String>) -> (r: (Vec<String>, Vec<String>))
    ensures
        (views(r.0@), views(r.1@)) == split_args_spec(views(args@)),
{
    let pos = position_from(args, ARG_SEPARATOR, 0);
    proof {
        lemma_first_eq_bounds(views(args@), "--"@, 0);
    }
    let head = slice_strings(args, 0, pos);
    let tail = if pos < args.len() {
        slice_strings(args, pos + 1, args.len())
    } else {
        let e: Vec<String> = Vec::new();
        assert(views(e@) =~= Seq::<Seq<char>>::empty());
        e
    };
    (head, tail)
}

/// Whether `name` is the `flatpak` program.
pub open spec fn is_flatpak_bin_spec(name: Seq<char>) -> bool {
    name == FLATPAK_CMD@ || ends_with_spec(name, "/flatpak"@)
}

/// Whether `name` runs Flatpak.
pub fn is_flatpak_bin(name: &str) -> (r: bool)
    ensures
        r == is_flatpak_bin_spec(name@),
{
    str_eq(name, FLATPAK_CMD) || ends_with(name, "/flatpak")
}

/// A `flatpak ... run ...` command.
pub open spec fn is_flatpak_run_spec(cmd: Seq<Seq<char>>) -> bool {
    cmd.len() > 0 && is_flatpak_bin_spec(cmd[0]) && cmd.contains(FLATPAK_RUN@)
}

/// Whether `cmd` is a `flatpak run` invocation.
pub fn is_flatpak_run(cmd: &Vec<String>) -> (r: bool)
    ensures
        r == is_flatpak_run_spec(views(cmd@)),
{
    if cmd.len() == 0 {
        return false;
    }
    assert(views(cmd@)[0] == cmd@[0]@);
    if !is_flatpak_bin(cmd[0].as_str()) {
        return false;
    }
    let p = position_from(cmd, FLATPAK_RUN, 0);
    proof {
        lemma_first_eq_bounds(views(cmd@), FLATPAK_RUN@, 0);
        if views(cmd@).contains(FLATPAK_RUN@) {
            let j = choose|j: int| 0 <= j < views(cmd@).len() && views(cmd@)[j] == FLATPAK_RUN@;
            assert(j >= first_eq_from(views(cmd@), FLATPAK_RUN@, 0));
        }
    }
    p < cmd.len()
}

/// The position of `run`.
pub open spec fn run_pos_spec(cmd: Seq<Seq<char>>) -> int {
    first_eq_from(cmd, FLATPAK_RUN@, 0)
}

/// The position of the application id: the first argument after `run` that
/// is no option.
pub open spec fn app_pos_spec(cmd: Seq<Seq<char>>) -> int {
    first_nondash_from(cmd, run_pos_spec(cmd) + 1)
}

/// The position of `run` in a command.
pub fn flatpak_run_pos(cmd: &Vec<String>) -> (r: Option<usize>)
    ensures
        match r {
            Some(p) => p == run_pos_spec(views(cmd@)) && p < cmd.len(),
            None => run_pos_spec(views(cmd@)) == cmd.len(),
        },
{
    let p = position_from(cmd, FLATPAK_RUN, 0);
    proof {
        lemma_first_eq_bounds(views(cmd@), FLATPAK_RUN@, 0);
    }
    if p < cmd.len() {
        Some(p)
    } else {
        None
    }
}

/// The position of the first argument at or after `from` that is no option.
fn nondash_from(v: &Vec<String>, from: usize) -> (r: usize)
    requires
        from <= v.len(),
    ensures
        r == first_nondash_from(views(v@), from as int),
{
    let mut i = from;
    while i < v.len()
        invariant
            from <= i <= v.len(),
            first_nondash_from(views(v@), from as int) == first_nondash_from(views(v@), i as int),
        decreases v.len() - i,
    {
        assert(views(v@)[i as int] == v@[i as int]@);
        if !starts_with(v[i].as_str(), "-") {
            return i;
        }
        i = i + 1;
    }
    i
}

/// The options given to `flatpak run` before the application id.
pub open spec fn user_flags_spec(cmd: Seq<Seq<char>>) -> Seq<Seq<char>> {
    let p = run_pos_spec(cmd);
    if p < cmd.len() {
        cmd.subrange(p + 1, app_pos_spec(cmd))
    } else {
        Seq::empty()
    }
}

/// The options between `run` and the application id.
pub fn flatpak_user_flags(cmd: &Vec<String>) -> (r: Vec<String>)
    ensures
        views(r@) == user_flags_spec(views(cmd@)),
{
    match flatpak_run_pos(cmd) {
        Some(p) => {
            let q = nondash_from(cmd, p + 1);
            proof {
                lemma_first_nondash_bounds(views(cmd@), p + 1);
            }
            slice_strings(cmd, p + 1, q)
        },
        None => {
            let e: Vec<String> = Vec::new();
            assert(views(e@) =~= Seq::<Seq<char>>::empty());
            e
        },
    }
}

/// The position of the application id in a command.
pub fn flatpak_app_pos(cmd: &Vec<String>) -> (r: Option<usize>)
    ensures
        match r {
            Some(p) => run_pos_spec(views(cmd@)) < cmd.len() && p == app_pos_spec(views(cmd@)) && p < cmd.len(),
            None => run_pos_spec(views(cmd@)) == cmd.len() || app_pos_spec(views(cmd@)) >= cmd.len(),
        },
{
    match flatpak_run_pos(cmd) {
        Some(p) => {
            let q = nondash_from(cmd, p + 1);
            if q < cmd.len() {
                Some(q)
            } else {
                None
            }
        },
        None => None,
    }
}

/// The application id of a `flatpak run` command.
pub open spec fn app_id_spec(cmd: Seq<Seq<char>>) -> Option<Seq<char>> {
    if run_pos_spec(cmd) < cmd.len() && app_pos_spec(cmd) < cmd.len() {
        Some(cmd[app_pos_spec(cmd)])
    } else {
        None
    }
}

/// The application id, if the command has one.
pub fn flatpak_app_id(cmd: &Vec<String>) -> (r: Option<String>)
    ensures
        opt_str(r) == app_id_spec(views(cmd@)),
{
    match flatpak_app_pos(cmd) {
        Some(p) => {
            assert(views(cmd@)[p as int] == cmd@[p as int]@);
            Some(cmd[p].as_str().to_owned())
        },
        None => None,
    }
}

/// The arguments after the application id.
pub open spec fn trailing_spec(cmd: Seq<Seq<char>>) -> Seq<Seq<char>> {
    if run_pos_spec(cmd) < cmd.len() && app_pos_spec(cmd) < cmd.len() {
        cmd.subrange(app_pos_spec(cmd) + 1, cmd.len() as int)
    } else {
        Seq::empty()
    }
}

/// The arguments that follow the application id.
pub fn flatpak_trailing(cmd: &Vec<String>) -> (r: Vec<String>)
    ensures
        views(r@) == trailing_spec(views(cmd@)),
{
    match flatpak_app_pos(cmd) {
        Some(p) => slice_strings(cmd, p + 1, cmd.len()),
        None => {
            let e: Vec<String> = Vec::new();
            assert(views(e@) =~= Seq::<Seq<char>>::empty());
            e
        },
    }
}


/// The index of the first line starting with `command=` from `i` on, or the count.
pub open spec fn meta_line_from(ls: Seq<Seq<char>>, i: int) -> int
    decreases ls.len() - i,
{
    if i >= ls.len() {
        ls.len() as int
    } else if starts_with_spec(ls[i], FLATPAK_META_KEY@) {
        i
    } else {
        meta_line_from(ls, i + 1)
    }
}

/// The application's command in `flatpak info --show-metadata` output: the
/// first `command=` line's value, trimmed.
pub open spec fn meta_command_spec(text: Seq<char>) -> Option<Seq<char>> {
    let ls = lines_spec(text);
    let i = meta_line_from(ls, 0);
    if i < ls.len() {
        Some(trim_spec(ls[i].subrange(FLATPAK_META_KEY@.len() as int, ls[i].len() as int)))
    } else {
        None
    }
}

/// The command an application's metadata names, if any.
pub fn parse_meta_command(text: &str) -> (r: Option<String>)
    ensures
        opt_str(r) == meta_command_spec(text@),
{
    let ls = lines(text);
    let ghost lv = views(ls@);
    let mut i: usize = 0;
    while i < ls.len()
        invariant
            i <= ls.len(),
            lv == views(ls@),
            lv == lines_spec(text@),
            meta_line_from(lv, 0) == meta_line_from(lv, i as int),
        decreases ls.len() - i,
    {
        assert(lv[i as int] == ls@[i as int]@);
        if starts_with(ls[i].as_str(), FLATPAK_META_KEY) {
            let l = ls[i].as_str();
            proof {
                reveal_strlit("command=");
            }
            let n = l.unicode_len();
            let rest = l.substring_char(8, n);
            return Some(trim(rest));
        }
        i = i + 1;
    }
    None
}

/// The command to run inside the sandbox: the one the metadata names, else
/// the application id.
pub fn app_command(app_id: &str, meta: Option<&str>) -> (r: String)
    ensures
        r@ == (match meta {
            Some(t) => match meta_command_spec(t@) {
                Some(c) => c,
                None => app_id@,
            },
            None => app_id@,
        }),
{
    match meta {
        Some(t) => match parse_meta_command(t) {
            Some(c) => c,
            None => app_id.to_owned(),
        },
        None => app_id.to_owned(),
    }
}

/// The rewritten `flatpak` arguments: `run`, the wrapper as command, the
/// profile passed in, the user's options, the application id and command, and
/// the trailing arguments.
pub open spec fn flatpak_args_spec(
    profile: Seq<char>,
    app_id: Seq<char>,
    app_cmd: Seq<char>,
    flags: Seq<Seq<char>>,
    trailing: Seq<Seq<char>>,
) -> Seq<Seq<char>> {
    seq![FLATPAK_RUN@, "--command="@ + FLATPAK_INJECT@, "--env="@ + ENV_CONFIG_NAME@ + "="@ + profile] + flags + seq![
        app_id,
        app_cmd,
    ] + trailing
}

fn push_all(out: &mut Vec<String>, v: &Vec<String>)
    ensures
        views(final(out)@) == views(old(out)@) + views(v@),
{
    let ghost o = views(out@);
    let mut i: usize = 0;
    while i < v.len()
        invariant
            i <= v.len(),
            views(out@) == o + views(v@).take(i as int),
        decreases v.len() - i,
    {
        let ghost before = out@;
        let c = v[i].as_str().to_owned();
        out.push(c);
        assert(views(v@)[i as int] == v@[i as int]@);
        assert(views(out@) =~= views(before).push(c@));
        assert(views(v@).take(i + 1) =~= views(v@).take(i as int).push(v@[i as int]@));
        i = i + 1;
    }
    assert(views(v@).take(v.len() as int) =~= views(v@));
}

/// The arguments that run `app_id` through the wrapper inside the sandbox.
pub fn build_flatpak_args(
    profile: &str,
    app_id: &str,
    app_cmd: &str,
    flags: &Vec<String>,
    trailing: &Vec<String>,
) -> (r: Vec<String>)
    ensures
        views(r@) == flatpak_args_spec(profile@, app_id@, app_cmd@, views(flags@), views(trailing@)),
{
    let mut out: Vec<String> = Vec::new();
    out.push(FLATPAK_RUN.to_owned());
    let mut c = "--command=".to_owned();
    c.append(FLATPAK_INJECT);
    out.push(c);
    let mut e = "--env=".to_owned();
    e.append(ENV_CONFIG_NAME);
    e.append("=");
    e.append(profile);
    out.push(e);
    assert(views(out@) =~= seq![FLATPAK_RUN@, "--command="@ + FLATPAK_INJECT@, "--env="@ + ENV_CONFIG_NAME@ + "="@ + profile@]);
    push_all(&mut out, flags);
    let ghost mid = views(out@);
    out.push(app_id.to_owned());
    out.push(app_cmd.to_owned());
    assert(views(out@) =~= mid + seq![app_id@, app_cmd@]);
    push_all(&mut out, trailing);
    out
}

/// The configuration file to create when missing: the profile's, outside
/// env-mode; in env-mode no file is touched.
pub fn ensure_profile_config(env: &EnvVars, profile: &str) -> (r: Option<String>)
    ensures
        env_mode_spec(env.vars@) ==> r is None,
        !env_mode_spec(env.vars@) ==> opt_str(r) == Some(config_file_spec(config_dir_spec(home_spec(env.vars@)), profile@)),
{
    if env_bypass_active(env) {
        None
    } else {
        Some(config_path(env, profile))
    }
}

/// Whether `val` is one of the `sep`-separated entries of `existing`.
pub fn val_in_list(existing: &str, val: &str, sep: char) -> (r: bool)
    ensures
        r == split_spec(existing@, sep).contains(val@),
{
    piece_in_list(existing, val, sep)
}

/// Appends a character (`String::push`, which std documents as appending the
/// given char to the end of the string).
#[verifier::external_body]
fn push_char(s: &mut String, c: char)
    ensures
        final(s)@ == old(s)@.push(c),
{
    s.push(c)
}

/// `val` put in front of the list `prev`, unless already listed.
pub open spec fn join_env_spec(val: Seq<char>, prev: Seq<char>, sep: char) -> Seq<char> {
    if split_spec(prev, sep).contains(val) {
        prev
    } else {
        val + seq![sep] + prev
    }
}

/// `val` prepended to the list `prev`, unless already there.
pub fn join_env(val: &str, prev: &str, sep: char) -> (r: String)
    ensures
        r@ == join_env_spec(val@, prev@, sep),
{
    if val_in_list(prev, val, sep) {
        prev.to_owned()
    } else {
        let mut out = val.to_owned();
        let ghost v = out@;
        let mut sep_s = String::new();
        push_char(&mut sep_s, sep);
        out.append(sep_s.as_str());
        out.append(prev);
        assert(sep_s@ =~= seq![sep]);
        out
    }
}

/// A list variable's new value: `val` in front of the current value when that
/// is set and not empty (and lacks `val`), else `val` alone.
pub open spec fn prepend_env_spec(val: Seq<char>, existing: Option<Seq<char>>, sep: char) -> Seq<char> {
    match existing {
        Some(p) => if p.len() > 0 {
            join_env_spec(val, p, sep)
        } else {
            val
        },
        None => val,
    }
}

/// The new value of a list variable with `val` in front.
pub fn prepend_env(val: &str, existing: Option<String>, sep: char) -> (r: String)
    ensures
        r@ == prepend_env_spec(val@, opt_str(existing), sep),
{
    match existing {
        Some(p) => if p.as_str().unicode_len() > 0 {
            join_env(val, p.as_str(), sep)
        } else {
            val.to_owned()
        },
        None => val.to_owned(),
    }
}


/// A candidate path and what probing the file system found of it.
pub struct PathFacts {
    pub path: String,
    pub exists: bool,
    /// Its canonical form, when canonicalizing succeeded.
    pub canonical: Option<String>,
}

/// Where the layer's files may be: each a path of the installed layout and
/// one of a development build, for 64-bit and 32-bit.
pub struct LibLayout {
    pub lib_64: (PathFacts, PathFacts),
    pub lib_32: (PathFacts, PathFacts),
    pub dir_64: (PathFacts, PathFacts),
    pub dir_32: (PathFacts, PathFacts),
}

/// The two candidates, installed first.
pub fn lib_pair<'a>(install: &'a PathFacts, dev: &'a PathFacts) -> (r: Vec<&'a PathFacts>)
    ensures
        r@ == seq![install, dev],
{
    let mut v = Vec::new();
    v.push(install);
    v.push(dev);
    assert(v@ =~= seq![install, dev]);
    v
}

/// The first candidate that exists.
pub fn first_existing<'a>(search: &Vec<&'a PathFacts>) -> (r: Option<&'a PathFacts>)
    ensures
        match r {
            Some(p) => exists|i: int|
                0 <= i < search.len() && search@[i] == p && p.exists && forall|j: int| 0 <= j < i ==> !(#[trigger] search@[j]).exists,
            None => forall|j: int| 0 <= j < search.len() ==> !(#[trigger] search@[j]).exists,
        },
{
    let mut i: usize = 0;
    while i < search.len()
        invariant
            i <= search.len(),
            forall|j: int| 0 <= j < i ==> !(#[trigger] search@[j]).exists,
        decreases search.len() - i,
    {
        if search[i].exists {
            return Some(search[i]);
        }
        i = i + 1;
    }
    None
}

/// A path's canonical form, or the path itself when that failed.
pub open spec fn canonical_spec(p: PathFacts) -> Seq<char> {
    match p.canonical {
        Some(c) => c@,
        None => p.path@,
    }
}

/// The path as its canonical string.
pub fn canonical_string(p: &PathFacts) -> (r: String)
    ensures
        r@ == canonical_spec(*p),
{
    match &p.canonical {
        Some(c) => c.as_str().to_owned(),
        None => p.path.as_str().to_owned(),
    }
}

/// The canonical path of the first existing candidate.
pub open spec fn resolve_spec(install: PathFacts, dev: PathFacts) -> Option<Seq<char>> {
    if install.exists {
        Some(canonical_spec(install))
    } else if dev.exists {
        Some(canonical_spec(dev))
    } else {
        None
    }
}

/// The installed file when it exists, else the development one, canonical.
pub fn resolve_one(install: &PathFacts, dev: &PathFacts) -> (r: Option<String>)
    ensures
        opt_str(r) == resolve_spec(*install, *dev),
{
    let pair = lib_pair(install, dev);
    match first_existing(&pair) {
        Some(p) => Some(canonical_string(p)),
        None => None,
    }
}

/// Both entries joined by `sep`, or the one there is.
pub open spec fn join_pair_spec(a: Option<Seq<char>>, b: Option<Seq<char>>, sep: char) -> Option<Seq<char>> {
    match (a, b) {
        (Some(x), Some(y)) => Some(x + seq![sep] + y),
        (Some(x), None) => Some(x),
        (None, Some(y)) => Some(y),
        (None, None) => None,
    }
}

/// Two optional entries as one list.
pub fn join_pair(a: Option<String>, b: Option<String>, sep: char) -> (r: Option<String>)
    ensures
        opt_str(r) == join_pair_spec(opt_str(a), opt_str(b), sep),
{
    match (a, b) {
        (Some(x), Some(y)) => {
            let mut out = x;
            push_char(&mut out, sep);
            out.append(y.as_str());
            Some(out)
        },
        (Some(x), None) => Some(x),
        (None, Some(y)) => Some(y),
        (None, None) => None,
    }
}

/// The 64-bit and 32-bit files found, joined; the installed 64-bit path when
/// neither exists.
pub open spec fn resolved_spec(p64: (PathFacts, PathFacts), p32: (PathFacts, PathFacts)) -> Seq<char> {
    match join_pair_spec(resolve_spec(p64.0, p64.1), resolve_spec(p32.0, p32.1), ENV_SEP) {
        Some(v) => v,
        None => p64.0.path@,
    }
}

/// The layer libraries to preload.
pub fn resolved_libs(l: &LibLayout) -> (r: String)
    ensures
        r@ == resolved_spec(l.lib_64, l.lib_32),
{
    match join_pair(resolve_one(&l.lib_64.0, &l.lib_64.1), resolve_one(&l.lib_32.0, &l.lib_32.1), ENV_SEP) {
        Some(v) => v,
        None => l.lib_64.0.path.as_str().to_owned(),
    }
}

/// The layer manifest directories to add.
pub fn resolved_layer_dirs(l: &LibLayout) -> (r: String)
    ensures
        r@ == resolved_spec(l.dir_64, l.dir_32),
{
    match join_pair(resolve_one(&l.dir_64.0, &l.dir_64.1), resolve_one(&l.dir_32.0, &l.dir_32.1), ENV_SEP) {
        Some(v) => v,
        None => l.dir_64.0.path.as_str().to_owned(),
    }
}

/// The environment a natively launched game gets on top of the launcher's:
/// the profile, the switch that activates the layer, and the layer prepended
/// to the preload, layer path and instance layer lists.
pub open spec fn child_env_spec(
    profile: Seq<char>,
    preload: Seq<char>,
    layer_dir: Seq<char>,
    vars: Seq<(String, String)>,
) -> Seq<(Seq<char>, Seq<char>)> {
    seq![
        (ENV_CONFIG_NAME@, profile),
        (ENV_ENABLE@, ENABLE_VALUE@),
        (ENV_PRELOAD@, prepend_env_spec(preload, env_value(vars, ENV_PRELOAD@), ENV_SEP)),
        (ENV_VK_ADD_LAYER_PATH@, prepend_env_spec(layer_dir, env_value(vars, ENV_VK_ADD_LAYER_PATH@), ENV_SEP)),
        (ENV_VK_INSTANCE_LAYERS@, prepend_env_spec(LAYER_NAME@, env_value(vars, ENV_VK_INSTANCE_LAYERS@), ENV_SEP)),
    ]
}

/// The views of a list of variable settings.
pub open spec fn env_views(v: Seq<(String, String)>) -> Seq<(Seq<char>, Seq<char>)> {
    v.map_values(|p: (String, String)| (p.0@, p.1@))
}

/// The variables to set for a natively launched game.
pub fn child_env(profile: &str, preload: &str, layer_dir: &str, env: &EnvVars) -> (r: Vec<(String, String)>)
    ensures
        env_views(r@) == child_env_spec(profile@, preload@, layer_dir@, env.vars@),
{
    let mut v: Vec<(String, String)> = Vec::new();
    v.push((ENV_CONFIG_NAME.to_owned(), profile.to_owned()));
    v.push((ENV_ENABLE.to_owned(), ENABLE_VALUE.to_owned()));
    v.push((ENV_PRELOAD.to_owned(), prepend_env(preload, env.var(ENV_PRELOAD), ENV_SEP)));
    v.push((ENV_VK_ADD_LAYER_PATH.to_owned(), prepend_env(layer_dir, env.var(ENV_VK_ADD_LAYER_PATH), ENV_SEP)));
    v.push((ENV_VK_INSTANCE_LAYERS.to_owned(), prepend_env(LAYER_NAME, env.var(ENV_VK_INSTANCE_LAYERS), ENV_SEP)));
    assert(env_views(v@) =~= child_env_spec(profile@, preload@, layer_dir@, env.vars@));
    v
}

/// What the launcher does.
pub enum LaunchPlan {
    /// Print the usage and exit successfully.
    Help,
    /// Print the usage and exit with the usage error (no command given).
    Usage,
    /// Replace the launcher with `argv`, adding `env`.
    Native { profile: String, argv: Vec<String>, env: Vec<(String, String)> },
    /// Rewrite a `flatpak run` command: look up the application's command,
    /// then run `flatpak` with `build_flatpak_args` of these.
    Flatpak { profile: String, app_id: String, flags: Vec<String>, trailing: Vec<String> },
    /// A `flatpak run` command without an application id: an error.
    FlatpakNoApp { profile: String },
}

/// Runs `cmd` natively with the layer.
pub fn exec_native(cmd: &Vec<String>, profile: &str, layout: &LibLayout, env: &EnvVars) -> (r: LaunchPlan)
    ensures
        r matches LaunchPlan::Native { profile: p, argv, env: e } && p@ == profile@ && views(argv@) == views(cmd@) && env_views(e@)
            == child_env_spec(profile@, resolved_spec(layout.lib_64, layout.lib_32), resolved_spec(layout.dir_64, layout.dir_32), env.vars@),
{
    let libs = resolved_libs(layout);
    let dirs = resolved_layer_dirs(layout);
    let argv = slice_strings(cmd, 0, cmd.len());
    assert(views(cmd@).subrange(0, cmd.len() as int) =~= views(cmd@));
    LaunchPlan::Native { profile: profile.to_owned(), argv, env: child_env(profile, libs.as_str(), dirs.as_str(), env) }
}

/// The profile the launcher's own arguments select: the first one, sanitized,
/// else `bones`.
pub open spec fn launch_profile_spec(head: Seq<Seq<char>>) -> Seq<char> {
    sanitized(if head.len() > 0 { head[0] } else { DEFAULT_PROFILE@ })
}

/// Whether a plan runs `cmd` as `launch_cmd` says for these inputs.
pub open spec fn launch_cmd_spec(r: LaunchPlan, head: Seq<Seq<char>>, cmd: Seq<Seq<char>>, layout: LibLayout, vars: Seq<(String, String)>) -> bool {
    let profile = launch_profile_spec(head);
    if is_flatpak_run_spec(cmd) {
        match app_id_spec(cmd) {
            Some(id) => r matches LaunchPlan::Flatpak { profile: p, app_id, flags, trailing } && p@ == profile
                && app_id@ == id && views(flags@) == user_flags_spec(cmd) && views(trailing@) == trailing_spec(cmd),
            None => r matches LaunchPlan::FlatpakNoApp { profile: p } && p@ == profile,
        }
    } else {
        r matches LaunchPlan::Native { profile: p, argv, env: e } && p@ == profile && views(argv@) == cmd && env_views(e@) == child_env_spec(
            profile,
            resolved_spec(layout.lib_64, layout.lib_32),
            resolved_spec(layout.dir_64, layout.dir_32),
            vars,
        )
    }
}

/// How the command runs, with the profile the launcher's arguments select.
pub fn launch_cmd(head: &Vec<String>, cmd: &Vec<String>, layout: &LibLayout, env: &EnvVars) -> (r: LaunchPlan)
    ensures
        launch_cmd_spec(r, views(head@), views(cmd@), *layout, env.vars@),
{
    let profile = if head.len() > 0 {
        assert(views(head@)[0] == head@[0]@);
        sanitize_name(head[0].as_str())
    } else {
        sanitize_name(DEFAULT_PROFILE)
    };
    if is_flatpak_run(cmd) {
        match flatpak_app_id(cmd) {
            Some(app_id) => LaunchPlan::Flatpak {
                profile,
                app_id,
                flags: flatpak_user_flags(cmd),
                trailing: flatpak_trailing(cmd),
            },
            None => LaunchPlan::FlatpakNoApp { profile },
        }
    } else {
        exec_native(cmd, profile.as_str(), layout, env)
    }
}

/// What the launcher does with its arguments: help when asked for before
/// `--`; the usage error when no command follows `--`; else the command run
/// with the profile the arguments before `--` select.
pub fn plan_launcher(args: &Vec<String>, layout: &LibLayout, env: &EnvVars) -> (r: LaunchPlan)
    ensures
        wants_help_spec(views(args@)) ==> r is Help,
        !wants_help_spec(views(args@)) && split_args_spec(views(args@)).1.len() == 0 ==> r is Usage,
        !wants_help_spec(views(args@)) && split_args_spec(views(args@)).1.len() > 0 ==> launch_cmd_spec(
            r,
            split_args_spec(views(args@)).0,
            split_args_spec(views(args@)).1,
            *layout,
            env.vars@,
        ),
{
    if wants_help(args) {
        return LaunchPlan::Help;
    }
    let (head, cmd) = split_args(args);
    if cmd.len() == 0 {
        LaunchPlan::Usage
    } else {
        launch_cmd(&head, &cmd, layout, env)
    }
}


proof fn lemma_split_no_sep(a: Seq<char>, sep: char)
    requires
        !a.contains(sep),
    ensures
        split_spec(a, sep) == seq![a],
    decreases a.len(),
{
    if a.len() > 0 {
        let p = a.drop_last();
        assert(!p.contains(sep)) by {
            if p.contains(sep) {
                let i = choose|i: int| 0 <= i < p.len() && p[i] == sep;
                assert(a[i] == sep);
            }
        }
        lemma_split_no_sep(p, sep);
        assert(a[a.len() - 1] != sep);
        assert(p.push(a.last()) =~= a);
        assert(split_spec(a, sep) =~= seq![a]);
    } else {
        assert(a =~= Seq::<char>::empty());
    }
}

proof fn lemma_split_append(a: Seq<char>, b: Seq<char>, sep: char)
    ensures
        split_spec(a + seq![sep] + b, sep) == split_spec(a, sep) + split_spec(b, sep),
    decreases b.len(),
{
    let q = a + seq![sep] + b;
    crate::text::lemma_split_nonempty(a, sep);
    if b.len() == 0 {
        assert(q.drop_last() =~= a);
        assert(q.last() == sep);
        assert(split_spec(b, sep) =~= seq![Seq::<char>::empty()]);
        assert(split_spec(q, sep) =~= split_spec(a, sep) + split_spec(b, sep));
    } else {
        let b2 = b.drop_last();
        lemma_split_append(a, b2, sep);
        crate::text::lemma_split_nonempty(b2, sep);
        assert(q.drop_last() =~= a + seq![sep] + b2);
        assert(q.last() == b.last());
        let x = split_spec(a, sep);
        let y = split_spec(b2, sep);
        if b.last() == sep {
            assert(split_spec(q, sep) =~= x + y.push(Seq::<char>::empty()));
        } else {
            let xy = x + y;
            assert(xy.last() == y.last());
            assert(xy.update(xy.len() - 1, xy.last().push(b.last())) =~= x + y.update(y.len() - 1, y.last().push(b.last())));
        }
    }
}

/// Putting a directory in front of a list variable twice changes nothing more
/// than putting it there once: no value is listed twice by the launcher.
pub proof fn law_prepend_is_idempotent(val: Seq<char>, prev: Seq<char>, sep: char)
    requires
        !val.contains(sep),
    ensures
        join_env_spec(val, join_env_spec(val, prev, sep), sep) == join_env_spec(val, prev, sep),
{
    if !split_spec(prev, sep).contains(val) {
        lemma_split_append(val, prev, sep);
        lemma_split_no_sep(val, sep);
        let q = val + seq![sep] + prev;
        assert(split_spec(q, sep)[0] == val);
        assert(split_spec(q, sep).contains(val));
    }
}

/// Putting a value in front of a list variable lists it, and keeps every
/// value the variable listed before.
pub proof fn law_prepend_lists_value_and_keeps_the_rest(val: Seq<char>, existing: Option<Seq<char>>, sep: char)
    requires
        !val.contains(sep),
    ensures
        split_spec(prepend_env_spec(val, existing, sep), sep).contains(val),
        existing is Some && existing->0.len() > 0 ==> forall|x: Seq<char>|
            #[trigger] split_spec(existing->0, sep).contains(x) ==> split_spec(prepend_env_spec(val, existing, sep), sep).contains(x),
{
    broadcast use vstd::seq_lib::lemma_seq_concat_contains_all_elements;

    lemma_split_no_sep(val, sep);
    assert(seq![val][0] == val);
    match existing {
        Some(p) => if p.len() > 0 && !split_spec(p, sep).contains(val) {
            lemma_split_append(val, p, sep);
        },
        None => {},
    }
}

/// A natively launched game gets the layer switched on: its profile, the
/// switch `BONES_ENABLE=1`, and the layer library, the layer manifest
/// directory and the layer's name each listed in their list variables, in
/// front of what was listed before.
pub proof fn law_child_env_activates_the_layer(
    profile: Seq<char>,
    preload: Seq<char>,
    layer_dir: Seq<char>,
    vars: Seq<(String, String)>,
)
    requires
        !preload.contains(ENV_SEP),
        !layer_dir.contains(ENV_SEP),
    ensures
        ({
            let c = child_env_spec(profile, preload, layer_dir, vars);
            &&& c.contains((ENV_CONFIG_NAME@, profile))
            &&& c.contains((ENV_ENABLE@, ENABLE_VALUE@))
            &&& exists|k: int| 0 <= k < c.len() && c[k].0 == ENV_PRELOAD@ && split_spec(c[k].1, ENV_SEP).contains(preload)
            &&& exists|k: int| 0 <= k < c.len() && c[k].0 == ENV_VK_ADD_LAYER_PATH@ && split_spec(c[k].1, ENV_SEP).contains(layer_dir)
            &&& exists|k: int| 0 <= k < c.len() && c[k].0 == ENV_VK_INSTANCE_LAYERS@ && split_spec(c[k].1, ENV_SEP).contains(LAYER_NAME@)
        }),
{
    reveal_strlit("VK_LAYER_BONES_overlay");
    assert(!LAYER_NAME@.contains(ENV_SEP)) by {
        if LAYER_NAME@.contains(ENV_SEP) {
            let i = choose|i: int| 0 <= i < LAYER_NAME@.len() && LAYER_NAME@[i] == ENV_SEP;
        }
    }
    law_prepend_lists_value_and_keeps_the_rest(preload, env_value(vars, ENV_PRELOAD@), ENV_SEP);
    law_prepend_lists_value_and_keeps_the_rest(layer_dir, env_value(vars, ENV_VK_ADD_LAYER_PATH@), ENV_SEP);
    law_prepend_lists_value_and_keeps_the_rest(LAYER_NAME@, env_value(vars, ENV_VK_INSTANCE_LAYERS@), ENV_SEP);
    let c = child_env_spec(profile, preload, layer_dir, vars);
    assert(c[0] == (ENV_CONFIG_NAME@, profile));
    assert(c[1] == (ENV_ENABLE@, ENABLE_VALUE@));
    assert(c[2].0 == ENV_PRELOAD@);
    assert(c[3].0 == ENV_VK_ADD_LAYER_PATH@);
    assert(c[4].0 == ENV_VK_INSTANCE_LAYERS@);
}

} // verus!
