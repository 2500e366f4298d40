//! Settings: reading them from the TOML configuration file or from the
//! environment, profile names and configuration paths.
use vstd::prelude::*;

use crate::effect::pair_views;
use crate::effect::pairs_to_map;
use crate::effect::EffectMap;
use crate::registry::EffectDef;
use crate::env::env_bool;
use crate::env::env_bool_spec;
use crate::env::env_bypass_active;
use crate::env::env_config_inline;
use crate::env::env_config_name;
use crate::env::env_home;
use crate::env::env_mode_spec;
use crate::env::env_res_scale;
use crate::env::env_string_spec;
use crate::env::env_uint;
use crate::env::env_uint_spec;
use crate::env::home_spec;
use crate::env::nonempty_value;
use crate::env::EnvVars;
use crate::env::DEFAULT_PROFILE;
use crate::env::ENV_COMPUTE;
use crate::env::ENV_COMPUTE_X;
use crate::env::ENV_COMPUTE_Y;
use crate::env::ENV_CONFIG;
use crate::env::ENV_CONFIG_NAME;
use crate::env::ENV_OPT_ASYNC_COMPUTE;
use crate::env::ENV_OPT_DYNREN;
use crate::env::ENV_OPT_MUTABLE_FMT;
use crate::env::ENV_OPT_PUSHDESC;
use crate::env::ENV_OPT_SYNC2;
use crate::env::ENV_RES_SCALE;
use crate::text::contains_char;
use crate::text::contains_spec;
use crate::text::contains_str;
use crate::text::is_ascii_graphic;
use crate::text::char_is_ascii_graphic;
use crate::text::chars_of;
use crate::text::split_char;
use crate::text::split_spec;
use crate::text::str_eq;
use crate::text::trim;
use crate::text::trim_spec;
use crate::text::views;
use crate::toml_doc::parse_toml_document;
use crate::toml_doc::toml_document;
use crate::toml_doc::find_entry;
use crate::toml_doc::section_get;
use crate::toml_doc::TomlDoc;
use crate::toml_doc::TomlItem;
use crate::toml_doc::TomlScalar;

verus! {

pub const RES_SCALE_KEY: &'static str = "resolution_scale";
pub const OPT_DYNREN_KEY: &'static str = "optimize_dynamic_rendering";
pub const OPT_PUSHDESC_KEY: &'static str = "optimize_push_descriptors";
pub const OPT_SYNC2_KEY: &'static str = "optimize_sync2";
pub const OPT_MUTABLE_FMT_KEY: &'static str = "optimize_mutable_format";
pub const OPT_ASYNC_COMPUTE_KEY: &'static str = "optimize_async_compute";
pub const COMPUTE_KEY: &'static str = "compute";
pub const COMPUTE_X_KEY: &'static str = "compute_x";
pub const COMPUTE_Y_KEY: &'static str = "compute_y";
pub const GENERAL_SECTION: &'static str = "general";
pub const COMPUTE_X_DEFAULT: u32 = 8;
pub const COMPUTE_Y_DEFAULT: u32 = 8;

/// Where the resolution scale comes from; the float arithmetic that turns it
/// into the scale factor (at least the minimum scale) happens where floats are
/// handled.
pub enum ScaleSpec {
    /// The default scale.
    Default,
    /// A TOML float, by the bits of its `f64`.
    Float(u64),
    /// A TOML integer.
    Integer(i64),
    /// Environment text to be read as an `f32`; the default when it is no number.
    Text(String),
}

/// The layer's settings.
pub struct Settings {
    pub effects: EffectMap,
    pub hot_reload: bool,
    pub res_scale: ScaleSpec,
    pub opt_fp16: bool,
    pub opt_dynren: bool,
    pub opt_pushdesc: bool,
    pub opt_subgroup: bool,
    pub opt_sync2: bool,
    pub opt_mutable_fmt: bool,
    pub opt_subgroup_ext_types: bool,
    pub opt_subgroup_uniform_flow: bool,
    pub opt_async_compute: bool,
    pub compute: bool,
    pub compute_x: u32,
    pub compute_y: u32,
}

/// The settings before any configuration is read: no effects, hot reload and
/// every fast path on, the compute path with the default workgroup, the
/// default scale.
pub open spec fn is_default_settings(s: Settings) -> bool {
    &&& s.effects@ == Map::<Seq<char>, bool>::empty()
    &&& s.hot_reload
    &&& s.res_scale == ScaleSpec::Default
    &&& s.opt_fp16
    &&& s.opt_dynren
    &&& s.opt_pushdesc
    &&& s.opt_subgroup
    &&& s.opt_sync2
    &&& s.opt_mutable_fmt
    &&& s.opt_subgroup_ext_types
    &&& s.opt_subgroup_uniform_flow
    &&& s.opt_async_compute
    &&& s.compute
    &&& s.compute_x == COMPUTE_X_DEFAULT
    &&& s.compute_y == COMPUTE_Y_DEFAULT
}

impl Default for Settings {
    fn default() -> (r: Settings)
        ensures
            is_default_settings(r),
    {
        Settings {
            effects: EffectMap::new(),
            hot_reload: true,
            res_scale: ScaleSpec::Default,
            opt_fp16: true,
            opt_dynren: true,
            opt_pushdesc: true,
            opt_subgroup: true,
            opt_sync2: true,
            opt_mutable_fmt: true,
            opt_subgroup_ext_types: true,
            opt_subgroup_uniform_flow: true,
            opt_async_compute: true,
            compute: true,
            compute_x: COMPUTE_X_DEFAULT,
            compute_y: COMPUTE_Y_DEFAULT,
        }
    }
}

/// A `[general]` key whose value is a boolean switch.
pub open spec fn is_general_bool_name(n: Seq<char>) -> bool {
    ||| n == OPT_DYNREN_KEY@
    ||| n == OPT_PUSHDESC_KEY@
    ||| n == OPT_SYNC2_KEY@
    ||| n == OPT_MUTABLE_FMT_KEY@
    ||| n == OPT_ASYNC_COMPUTE_KEY@
    ||| n == COMPUTE_KEY@
}

/// A `[general]` key whose value is a float.
pub open spec fn is_general_float_name(n: Seq<char>) -> bool {
    n == RES_SCALE_KEY@
}

/// A `[general]` key whose value is an unsigned integer.
pub open spec fn is_general_uint_name(n: Seq<char>) -> bool {
    n == COMPUTE_X_KEY@ || n == COMPUTE_Y_KEY@
}

/// A key of the `[general]` section.
pub open spec fn is_general_name(n: Seq<char>) -> bool {
    is_general_bool_name(n) || is_general_float_name(n) || is_general_uint_name(n)
}

/// `n` names an effect of `reg`.
pub open spec fn is_registry_name(reg: Seq<EffectDef>, n: Seq<char>) -> bool {
    exists|i: int| 0 <= i < reg.len() && #[trigger] reg[i].name@ == n
}

/// `n` is a key the configuration knows: a general setting or an effect.
pub open spec fn is_known_name(reg: Seq<EffectDef>, n: Seq<char>) -> bool {
    is_general_name(n) || is_registry_name(reg, n)
}

pub fn name_is_general_bool(raw: &str) -> (r: bool)
    ensures
        r == is_general_bool_name(raw@),
{
    str_eq(raw, OPT_DYNREN_KEY) || str_eq(raw, OPT_PUSHDESC_KEY) || str_eq(raw, OPT_SYNC2_KEY)
        || str_eq(raw, OPT_MUTABLE_FMT_KEY) || str_eq(raw, OPT_ASYNC_COMPUTE_KEY) || str_eq(
        raw,
        COMPUTE_KEY,
    )
}

pub fn name_is_general_float(raw: &str) -> (r: bool)
    ensures
        r == is_general_float_name(raw@),
{
    str_eq(raw, RES_SCALE_KEY)
}

pub fn name_is_general_uint(raw: &str) -> (r: bool)
    ensures
        r == is_general_uint_name(raw@),
{
    str_eq(raw, COMPUTE_X_KEY) || str_eq(raw, COMPUTE_Y_KEY)
}

pub fn name_is_general(raw: &str) -> (r: bool)
    ensures
        r == is_general_name(raw@),
{
    name_is_general_bool(raw) || name_is_general_float(raw) || name_is_general_uint(raw)
}

/// Whether `raw` is a general key or the name of an effect of `reg`.
pub fn name_is_known(raw: &str, reg: &[EffectDef]) -> (r: bool)
    ensures
        r == is_known_name(reg@, raw@),
{
    if name_is_general(raw) {
        return true;
    }
    let mut i: usize = 0;
    while i < reg.len()
        invariant
            i <= reg.len(),
            forall|k: int| 0 <= k < i ==> #[trigger] reg@[k].name@ != raw@,
        decreases reg.len() - i,
    {
        if str_eq(reg[i].name, raw) {
            return true;
        }
        i = i + 1;
    }
    false
}

/// The warning for a configuration key that names no effect.
pub open spec fn unknown_effect_msg(name: Seq<char>) -> Seq<char> {
    "unknown effect '"@ + name + "' in config, ignoring"@
}

/// The warning for an effect key whose value is no boolean.
pub open spec fn non_bool_msg(name: Seq<char>) -> Seq<char> {
    "non-boolean value for '"@ + name + "' in config, ignoring"@
}

/// The warning line for an unknown effect key.
pub fn log_unknown_effect(name: &str) -> (r: String)
    ensures
        r@ == unknown_effect_msg(name@),
{
    let mut m = "unknown effect '".to_owned();
    m.append(name);
    m.append("' in config, ignoring");
    m
}

/// The warning line for a non-boolean effect value.
pub fn log_non_bool_effect(name: &str) -> (r: String)
    ensures
        r@ == non_bool_msg(name@),
{
    let mut m = "non-boolean value for '".to_owned();
    m.append(name);
    m.append("' in config, ignoring");
    m
}

/// What a key of a section contributes to the effect switches: an effect key
/// with a boolean value gives its switch; general keys, unknown keys and
/// non-boolean values give nothing.
pub open spec fn classify_spec(name: Seq<char>, v: TomlScalar, reg: Seq<EffectDef>) -> Option<(Seq<char>, bool)> {
    if is_known_name(reg, name) && !is_general_name(name) {
        match v {
            TomlScalar::Boolean(b) => Some((name, b)),
            _ => None,
        }
    } else {
        None
    }
}

/// The warning a key of a section raises, if any.
pub open spec fn key_warning_spec(name: Seq<char>, v: TomlScalar, reg: Seq<EffectDef>) -> Option<Seq<char>> {
    if !is_known_name(reg, name) {
        Some(unknown_effect_msg(name))
    } else if !is_general_name(name) && !(v is Boolean) {
        Some(non_bool_msg(name))
    } else {
        None
    }
}

/// The switches a section's entries give, in entry order.
pub open spec fn section_pairs(es: Seq<(String, TomlScalar)>, reg: Seq<EffectDef>) -> Seq<(Seq<char>, bool)>
    decreases es.len(),
{
    if es.len() == 0 {
        Seq::empty()
    } else {
        let prev = section_pairs(es.drop_last(), reg);
        match classify_spec(es.last().0@, es.last().1, reg) {
            Some(p) => prev.push(p),
            None => prev,
        }
    }
}

/// The switches a top-level value gives: those of its entries when it is a table.
pub open spec fn item_pairs(item: TomlItem, reg: Seq<EffectDef>) -> Seq<(Seq<char>, bool)> {
    match item {
        TomlItem::Table(es) => section_pairs(es@, reg),
        TomlItem::Scalar(_) => Seq::empty(),
    }
}

/// The switches of a whole document, section after section.
pub open spec fn doc_pairs(entries: Seq<(String, TomlItem)>, reg: Seq<EffectDef>) -> Seq<(Seq<char>, bool)>
    decreases entries.len(),
{
    if entries.len() == 0 {
        Seq::empty()
    } else {
        doc_pairs(entries.drop_last(), reg) + item_pairs(entries.last().1, reg)
    }
}

/// The warnings a section's entries raise, in entry order.
pub open spec fn section_warnings(es: Seq<(String, TomlScalar)>, reg: Seq<EffectDef>) -> Seq<Seq<char>>
    decreases es.len(),
{
    if es.len() == 0 {
        Seq::empty()
    } else {
        let prev = section_warnings(es.drop_last(), reg);
        match key_warning_spec(es.last().0@, es.last().1, reg) {
            Some(w) => prev.push(w),
            None => prev,
        }
    }
}

/// The warnings of a top-level value.
pub open spec fn item_warnings(item: TomlItem, reg: Seq<EffectDef>) -> Seq<Seq<char>> {
    match item {
        TomlItem::Table(es) => section_warnings(es@, reg),
        TomlItem::Scalar(_) => Seq::empty(),
    }
}

/// The warnings of a whole document.
pub open spec fn doc_warnings(entries: Seq<(String, TomlItem)>, reg: Seq<EffectDef>) -> Seq<Seq<char>>
    decreases entries.len(),
{
    if entries.len() == 0 {
        Seq::empty()
    } else {
        doc_warnings(entries.drop_last(), reg) + item_warnings(entries.last().1, reg)
    }
}

/// A TOML boolean's value.
pub fn toml_bool(v: TomlScalar) -> (r: Option<bool>)
    ensures
        r == (match v {
            TomlScalar::Boolean(b) => Some(b),
            _ => None,
        }),
{
    match v {
        TomlScalar::Boolean(b) => Some(b),
        _ => None,
    }
}

/// The switch a section key gives, if any.
pub fn classify_toml_key(name: &str, v: TomlScalar, reg: &[EffectDef]) -> (r: Option<(String, bool)>)
    ensures
        match r {
            Some(p) => classify_spec(name@, v, reg@) == Some((p.0@, p.1)),
            None => classify_spec(name@, v, reg@) is None,
        },
{
    if name_is_known(name, reg) && !name_is_general(name) {
        match toml_bool(v) {
            Some(b) => Some((name.to_owned(), b)),
            None => None,
        }
    } else {
        None
    }
}

/// The warning a section key raises, if any.
pub fn key_warning(name: &str, v: TomlScalar, reg: &[EffectDef]) -> (r: Option<String>)
    ensures
        match r {
            Some(w) => key_warning_spec(name@, v, reg@) == Some(w@),
            None => key_warning_spec(name@, v, reg@) is None,
        },
{
    if !name_is_known(name, reg) {
        Some(log_unknown_effect(name))
    } else if !name_is_general(name) && toml_bool(v).is_none() {
        Some(log_non_bool_effect(name))
    } else {
        None
    }
}

/// The switches that a top-level value of the document gives.
pub fn section_effects(item: &TomlItem, reg: &[EffectDef]) -> (r: Vec<(String, bool)>)
    ensures
        pair_views(r@) == item_pairs(*item, reg@),
{
    let mut out: Vec<(String, bool)> = Vec::new();
    match item {
        TomlItem::Table(es) => {
            let mut i: usize = 0;
            while i < es.len()
                invariant
                    i <= es.len(),
                    pair_views(out@) == section_pairs(es@.take(i as int), reg@),
                decreases es.len() - i,
            {
                assert(es@.take(i + 1).drop_last() =~= es@.take(i as int));
                let ghost before = out@;
                match classify_toml_key(es[i].0.as_str(), es[i].1, reg) {
                    Some(p) => {
                        out.push(p);
                        assert(pair_views(out@) =~= pair_views(before).push((p.0@, p.1)));
                    },
                    None => {},
                }
                i = i + 1;
            }
            assert(es@.take(es.len() as int) =~= es@);
        },
        TomlItem::Scalar(_) => {
            assert(pair_views(out@) =~= Seq::<(Seq<char>, bool)>::empty());
        },
    }
    out
}

/// The warnings that a top-level value of the document raises.
pub fn section_warnings_of(item: &TomlItem, reg: &[EffectDef]) -> (r: Vec<String>)
    ensures
        views(r@) == item_warnings(*item, reg@),
{
    let mut out: Vec<String> = Vec::new();
    match item {
        TomlItem::Table(es) => {
            let mut i: usize = 0;
            while i < es.len()
                invariant
                    i <= es.len(),
                    views(out@) == section_warnings(es@.take(i as int), reg@),
                decreases es.len() - i,
            {
                assert(es@.take(i + 1).drop_last() =~= es@.take(i as int));
                let ghost before = out@;
                match key_warning(es[i].0.as_str(), es[i].1, reg) {
                    Some(w) => {
                        out.push(w);
                        assert(views(out@) =~= views(before).push(w@));
                    },
                    None => {},
                }
                i = i + 1;
            }
            assert(es@.take(es.len() as int) =~= es@);
        },
        TomlItem::Scalar(_) => {
            assert(views(out@) =~= Seq::<Seq<char>>::empty());
        },
    }
    out
}

/// The effect switches of a document: every section's effect keys with boolean
/// values, later ones overriding earlier ones.
pub fn effects_of(doc: &TomlDoc, reg: &[EffectDef]) -> (r: EffectMap)
    ensures
        r@ == pairs_to_map(doc_pairs(doc.entries@, reg@)),
{
    let mut all: Vec<(String, bool)> = Vec::new();
    let mut i: usize = 0;
    while i < doc.entries.len()
        invariant
            i <= doc.entries.len(),
            pair_views(all@) == doc_pairs(doc.entries@.take(i as int), reg@),
        decreases doc.entries.len() - i,
    {
        assert(doc.entries@.take(i + 1).drop_last() =~= doc.entries@.take(i as int));
        let mut part = section_effects(&doc.entries[i].1, reg);
        let ghost a = all@;
        let ghost p = part@;
        all.append(&mut part);
        assert(pair_views(all@) =~= pair_views(a) + pair_views(p));
        i = i + 1;
    }
    assert(doc.entries@.take(doc.entries.len() as int) =~= doc.entries@);
    EffectMap::from_pairs(all)
}

/// The warnings reading a document raises, in document order.
pub fn config_warnings(doc: &TomlDoc, reg: &[EffectDef]) -> (r: Vec<String>)
    ensures
        views(r@) == doc_warnings(doc.entries@, reg@),
{
    let mut all: Vec<String> = Vec::new();
    let mut i: usize = 0;
    while i < doc.entries.len()
        invariant
            i <= doc.entries.len(),
            views(all@) == doc_warnings(doc.entries@.take(i as int), reg@),
        decreases doc.entries.len() - i,
    {
        assert(doc.entries@.take(i + 1).drop_last() =~= doc.entries@.take(i as int));
        let mut part = section_warnings_of(&doc.entries[i].1, reg);
        let ghost a = all@;
        let ghost p = part@;
        all.append(&mut part);
        assert(views(all@) =~= views(a) + views(p));
        i = i + 1;
    }
    assert(doc.entries@.take(doc.entries.len() as int) =~= doc.entries@);
    all
}


/// The entries of the `[general]` table, when the document has one.
pub open spec fn general_entries(entries: Seq<(String, TomlItem)>) -> Option<Seq<(String, TomlScalar)>> {
    match find_entry(entries, GENERAL_SECTION@) {
        Some(TomlItem::Table(es)) => Some(es@),
        _ => None,
    }
}

/// The value of `key` in the `[general]` table.
pub open spec fn general_value(entries: Seq<(String, TomlItem)>, key: Seq<char>) -> Option<TomlScalar> {
    match general_entries(entries) {
        Some(es) => find_entry(es, key),
        None => None,
    }
}

/// The boolean switches of the `[general]` table that name a general boolean key.
pub open spec fn general_flag_pairs(es: Seq<(String, TomlScalar)>) -> Seq<(Seq<char>, bool)>
    decreases es.len(),
{
    if es.len() == 0 {
        Seq::empty()
    } else {
        let prev = general_flag_pairs(es.drop_last());
        match es.last().1 {
            TomlScalar::Boolean(b) => if is_general_bool_name(es.last().0@) {
                prev.push((es.last().0@, b))
            } else {
                prev
            },
            _ => prev,
        }
    }
}

/// The general switches of a document, by key.
pub open spec fn general_flags_map(entries: Seq<(String, TomlItem)>) -> Map<Seq<char>, bool> {
    match general_entries(entries) {
        Some(es) => pairs_to_map(general_flag_pairs(es)),
        None => Map::empty(),
    }
}

/// A switch of `m`, `default` when absent.
pub open spec fn flag_or(m: Map<Seq<char>, bool>, key: Seq<char>, default: bool) -> bool {
    if m.contains_key(key) {
        m[key]
    } else {
        default
    }
}

/// The resolution scale a `[general]` value gives: a float or an integer
/// is the scale, anything else leaves the default.
pub open spec fn scale_of(v: Option<TomlScalar>) -> ScaleSpec {
    match v {
        Some(TomlScalar::Float(b)) => ScaleSpec::Float(b),
        Some(TomlScalar::Integer(i)) => ScaleSpec::Integer(i),
        _ => ScaleSpec::Default,
    }
}

/// An unsigned `[general]` value: an integer clamped to `0..=u32::MAX`, else `default`.
pub open spec fn uint_setting(v: Option<TomlScalar>, default: u32) -> u32 {
    match v {
        Some(TomlScalar::Integer(i)) => if i < 0 {
            0
        } else if i > u32::MAX {
            u32::MAX
        } else {
            i as u32
        },
        _ => default,
    }
}

/// Everything `s` holds when it was read from a document with these entries.
pub open spec fn settings_match_doc(s: Settings, entries: Seq<(String, TomlItem)>, reg: Seq<EffectDef>) -> bool {
    let flags = general_flags_map(entries);
    &&& s.effects@ == pairs_to_map(doc_pairs(entries, reg))
    &&& s.hot_reload
    &&& s.res_scale == scale_of(general_value(entries, RES_SCALE_KEY@))
    &&& s.opt_fp16
    &&& s.opt_dynren == flag_or(flags, OPT_DYNREN_KEY@, true)
    &&& s.opt_pushdesc == flag_or(flags, OPT_PUSHDESC_KEY@, true)
    &&& s.opt_subgroup
    &&& s.opt_sync2 == flag_or(flags, OPT_SYNC2_KEY@, true)
    &&& s.opt_mutable_fmt == flag_or(flags, OPT_MUTABLE_FMT_KEY@, true)
    &&& s.opt_subgroup_ext_types
    &&& s.opt_subgroup_uniform_flow
    &&& s.opt_async_compute == flag_or(flags, OPT_ASYNC_COMPUTE_KEY@, true)
    &&& s.compute == flag_or(flags, COMPUTE_KEY@, true)
    &&& s.compute_x == uint_setting(general_value(entries, COMPUTE_X_KEY@), COMPUTE_X_DEFAULT)
    &&& s.compute_y == uint_setting(general_value(entries, COMPUTE_Y_KEY@), COMPUTE_Y_DEFAULT)
}

/// The `[general]` table of a document, if it has one.
pub fn general_table(doc: &TomlDoc) -> (r: Option<&Vec<(String, TomlScalar)>>)
    ensures
        match r {
            Some(es) => general_entries(doc.entries@) == Some(es@),
            None => general_entries(doc.entries@) is None,
        },
{
    let mut i: usize = 0;
    assert(doc.entries@.skip(0) =~= doc.entries@);
    while i < doc.entries.len()
        invariant
            i <= doc.entries.len(),
            find_entry(doc.entries@, GENERAL_SECTION@) == find_entry(doc.entries@.skip(i as int), GENERAL_SECTION@),
        decreases doc.entries.len() - i,
    {
        assert(doc.entries@.skip(i as int).drop_first() =~= doc.entries@.skip(i + 1));
        if str_eq(doc.entries[i].0.as_str(), GENERAL_SECTION) {
            return match &doc.entries[i].1 {
                TomlItem::Table(es) => Some(es),
                TomlItem::Scalar(_) => None,
            };
        }
        i = i + 1;
    }
    None
}

/// The value of `key` in the `[general]` table.
pub fn general_get(doc: &TomlDoc, key: &str) -> (r: Option<TomlScalar>)
    ensures
        r == general_value(doc.entries@, key@),
{
    match general_table(doc) {
        Some(es) => section_get(es, key),
        None => None,
    }
}

/// A TOML number as a resolution scale.
pub fn toml_float(v: TomlScalar) -> (r: Option<ScaleSpec>)
    ensures
        r == (match v {
            TomlScalar::Float(b) => Some(ScaleSpec::Float(b)),
            TomlScalar::Integer(i) => Some(ScaleSpec::Integer(i)),
            _ => None,
        }),
{
    match v {
        TomlScalar::Float(b) => Some(ScaleSpec::Float(b)),
        TomlScalar::Integer(i) => Some(ScaleSpec::Integer(i)),
        _ => None,
    }
}

/// A TOML integer as an unsigned value, negative ones as zero.
pub fn toml_uint(v: TomlScalar) -> (r: Option<u64>)
    ensures
        r == (match v {
            TomlScalar::Integer(i) => Some(if i < 0 { 0u64 } else { i as u64 }),
            _ => None,
        }),
{
    match v {
        TomlScalar::Integer(i) => Some(if i < 0 { 0u64 } else { i as u64 }),
        _ => None,
    }
}

/// The resolution scale of a document.
pub fn parse_res_scale(doc: &TomlDoc) -> (r: ScaleSpec)
    ensures
        r == scale_of(general_value(doc.entries@, RES_SCALE_KEY@)),
{
    match general_get(doc, RES_SCALE_KEY) {
        Some(v) => match toml_float(v) {
            Some(sc) => sc,
            None => ScaleSpec::Default,
        },
        None => ScaleSpec::Default,
    }
}

/// An unsigned `[general]` value of a document, at most `u32::MAX`.
pub fn parse_general_uint(doc: &TomlDoc, key: &str, default: u32) -> (r: u32)
    ensures
        r == uint_setting(general_value(doc.entries@, key@), default),
{
    match general_get(doc, key) {
        Some(v) => match toml_uint(v) {
            Some(n) => if n > u32::MAX as u64 {
                u32::MAX
            } else {
                n as u32
            },
            None => default,
        },
        None => default,
    }
}

/// The general boolean switches of a document.
pub fn general_flags(doc: &TomlDoc) -> (r: EffectMap)
    ensures
        r@ == general_flags_map(doc.entries@),
{
    match general_table(doc) {
        Some(es) => {
            let mut out: Vec<(String, bool)> = Vec::new();
            let mut i: usize = 0;
            while i < es.len()
                invariant
                    i <= es.len(),
                    pair_views(out@) == general_flag_pairs(es@.take(i as int)),
                decreases es.len() - i,
            {
                assert(es@.take(i + 1).drop_last() =~= es@.take(i as int));
                let ghost before = out@;
                match es[i].1 {
                    TomlScalar::Boolean(b) => {
                        if name_is_general_bool(es[i].0.as_str()) {
                            out.push((es[i].0.as_str().to_owned(), b));
                            assert(pair_views(out@) =~= pair_views(before).push((es@[i as int].0@, b)));
                        }
                    },
                    _ => {},
                }
                i = i + 1;
            }
            assert(es@.take(es.len() as int) =~= es@);
            EffectMap::from_pairs(out)
        },
        None => EffectMap::new(),
    }
}

/// The switch for `key`, `default` when absent.
pub fn parse_bool_opt(effects: &EffectMap, key: &str, default: bool) -> (r: bool)
    ensures
        r == flag_or(effects@, key@, default),
{
    match effects.get(key) {
        Some(b) => b,
        None => default,
    }
}

/// The settings a parsed document gives.
pub fn settings_from_doc(doc: &TomlDoc, reg: &[EffectDef]) -> (r: Settings)
    ensures
        settings_match_doc(r, doc.entries@, reg@),
{
    let flags = general_flags(doc);
    Settings {
        effects: effects_of(doc, reg),
        hot_reload: true,
        res_scale: parse_res_scale(doc),
        opt_fp16: true,
        opt_dynren: parse_bool_opt(&flags, OPT_DYNREN_KEY, true),
        opt_pushdesc: parse_bool_opt(&flags, OPT_PUSHDESC_KEY, true),
        opt_subgroup: true,
        opt_sync2: parse_bool_opt(&flags, OPT_SYNC2_KEY, true),
        opt_mutable_fmt: parse_bool_opt(&flags, OPT_MUTABLE_FMT_KEY, true),
        opt_subgroup_ext_types: true,
        opt_subgroup_uniform_flow: true,
        opt_async_compute: parse_bool_opt(&flags, OPT_ASYNC_COMPUTE_KEY, true),
        compute: parse_bool_opt(&flags, COMPUTE_KEY, true),
        compute_x: parse_general_uint(doc, COMPUTE_X_KEY, COMPUTE_X_DEFAULT),
        compute_y: parse_general_uint(doc, COMPUTE_Y_KEY, COMPUTE_Y_DEFAULT),
    }
}

/// The document entries that the `toml` crate reads from `text`: none when it
/// reports a syntax error (the settings then take their defaults).
pub open spec fn doc_entries_of(text: Seq<char>) -> Seq<(String, TomlItem)> {
    match toml_document(text) {
        Some(d) => d.entries@,
        None => Seq::empty(),
    }
}

/// The settings that a configuration file's text gives.
pub fn parse_settings(text: &str, reg: &[EffectDef]) -> (r: Settings)
    ensures
        settings_match_doc(r, doc_entries_of(text@), reg@),
{
    match parse_toml_document(text) {
        Some(doc) => settings_from_doc(&doc, reg),
        None => {
            let empty = TomlDoc { entries: Vec::new() };
            assert(empty.entries@ =~= Seq::<(String, TomlItem)>::empty());
            settings_from_doc(&empty, reg)
        },
    }
}

/// The warnings that reading a configuration file's text raises, in document
/// order; `None` when the text is no TOML document.
pub fn config_text_warnings(text: &str, reg: &[EffectDef]) -> (r: Option<Vec<String>>)
    ensures
        match toml_document(text@) {
            Some(d) => r matches Some(w) && views(w@) == doc_warnings(d.entries@, reg@),
            None => r is None,
        },
{
    match parse_toml_document(text) {
        Some(doc) => Some(config_warnings(&doc, reg)),
        None => None,
    }
}


/// The default text of a configuration file, read when the profile's file
/// cannot be read.
pub fn default_settings(head: &str, reg: &[EffectDef]) -> (r: Settings)
    ensures
        settings_match_doc(r, doc_entries_of(head@), reg@),
{
    parse_settings(head, reg)
}

/// The settings of a configuration file: its text when it could be read, else
/// the default configuration `head`.
pub fn read_config(text: Option<&str>, head: &str, reg: &[EffectDef]) -> (r: Settings)
    ensures
        settings_match_doc(
            r,
            doc_entries_of(
                match text {
                    Some(t) => t@,
                    None => head@,
                },
            ),
            reg@,
        ),
{
    match text {
        Some(t) => parse_settings(t, reg),
        None => default_settings(head, reg),
    }
}

/// The pieces of an inline effect list that name known keys, each switched on.
pub open spec fn list_pairs(pieces: Seq<Seq<char>>, reg: Seq<EffectDef>) -> Seq<(Seq<char>, bool)>
    decreases pieces.len(),
{
    if pieces.len() == 0 {
        Seq::empty()
    } else {
        let prev = list_pairs(pieces.drop_last(), reg);
        let t = trim_spec(pieces.last());
        if t.len() > 0 && is_known_name(reg, t) {
            prev.push((t, true))
        } else {
            prev
        }
    }
}

/// A known name switched on; unknown names are dropped.
pub fn warn_unknown(raw: &str, reg: &[EffectDef]) -> (r: Option<(String, bool)>)
    ensures
        match r {
            Some(p) => is_known_name(reg@, raw@) && p.0@ == raw@ && p.1,
            None => !is_known_name(reg@, raw@),
        },
{
    if name_is_known(raw, reg) {
        Some((raw.to_owned(), true))
    } else {
        None
    }
}

/// The switches of an inline effect list: `;`-separated names, trimmed, empty
/// pieces and unknown names skipped, each listed name on.
pub fn effects_from_list(text: &str, reg: &[EffectDef]) -> (r: EffectMap)
    ensures
        r@ == pairs_to_map(list_pairs(split_spec(text@, ';'), reg@)),
{
    let pieces = split_char(text, ';');
    let ghost ps = views(pieces@);
    let mut out: Vec<(String, bool)> = Vec::new();
    let mut i: usize = 0;
    while i < pieces.len()
        invariant
            i <= pieces.len(),
            ps == views(pieces@),
            ps == split_spec(text@, ';'),
            pair_views(out@) == list_pairs(ps.take(i as int), reg@),
        decreases pieces.len() - i,
    {
        assert(ps.take(i + 1).drop_last() =~= ps.take(i as int));
        assert(ps.take(i + 1).last() == pieces@[i as int]@);
        let t = trim(pieces[i].as_str());
        let ghost before = out@;
        if t.as_str().unicode_len() > 0 {
            match warn_unknown(t.as_str(), reg) {
                Some(p) => {
                    out.push(p);
                    assert(pair_views(out@) =~= pair_views(before).push((t@, true)));
                },
                None => {},
            }
        }
        i = i + 1;
    }
    assert(ps.take(pieces.len() as int) =~= ps);
    EffectMap::from_pairs(out)
}

/// A usable profile name: not empty, printable ASCII only, no path separators,
/// no `..`.
pub open spec fn valid_profile_name(n: Seq<char>) -> bool {
    &&& n.len() > 0
    &&& !n.contains('/')
    &&& !n.contains('\\')
    &&& !contains_spec(n, ".."@)
    &&& !n.contains('\0')
    &&& forall|i: int| 0 <= i < n.len() ==> is_ascii_graphic(#[trigger] n[i])
}

/// The profile a requested name selects: the name when it is usable, else the
/// default profile.
pub open spec fn sanitized(n: Seq<char>) -> Seq<char> {
    if valid_profile_name(n) {
        n
    } else {
        DEFAULT_PROFILE@
    }
}

/// Whether `raw` is a usable profile name.
pub fn name_is_valid(raw: &str) -> (r: bool)
    ensures
        r == valid_profile_name(raw@),
{
    if raw.unicode_len() == 0 || contains_char(raw, '/') || contains_char(raw, '\\') || contains_str(raw, "..")
        || contains_char(raw, '\0') {
        return false;
    }
    let cs = chars_of(raw);
    let mut i: usize = 0;
    while i < cs.len()
        invariant
            cs@ == raw@,
            i <= cs.len(),
            forall|k: int| 0 <= k < i ==> is_ascii_graphic(#[trigger] raw@[k]),
        decreases cs.len() - i,
    {
        if !char_is_ascii_graphic(cs[i]) {
            return false;
        }
        i = i + 1;
    }
    true
}

/// The profile `raw` selects: `raw` when usable, else `bones`.
pub fn sanitize_name(raw: &str) -> (r: String)
    ensures
        r@ == sanitized(raw@),
{
    if name_is_valid(raw) {
        raw.to_owned()
    } else {
        DEFAULT_PROFILE.to_owned()
    }
}

/// The default profile name is itself usable.
proof fn lemma_default_profile_valid()
    ensures
        valid_profile_name(DEFAULT_PROFILE@),
{
    reveal_strlit("bones");
    reveal_strlit("..");
    let n = DEFAULT_PROFILE@;
    assert(n =~= seq!['b', 'o', 'n', 'e', 's']);
    assert(!n.contains('/'));
    assert(!n.contains('\\'));
    assert(!n.contains('\0'));
    assert forall|i: int| 0 <= i && i + 2 <= n.len() implies #[trigger] n.subrange(i, i + 2) != ".."@ by {
        assert(n.subrange(i, i + 2)[0] == n[i]);
        assert(n[i] != '.');
    }
}

/// Whatever name is requested, the profile it selects is usable, and selecting
/// again keeps it: sanitizing is idempotent.
pub proof fn law_sanitized_name_is_valid(raw: Seq<char>)
    ensures
        valid_profile_name(sanitized(raw)),
        sanitized(sanitized(raw)) == sanitized(raw),
{
    lemma_default_profile_valid();
}

/// `base` joined with `part` as `PathBuf::join` does on Unix: an absolute part
/// replaces the base, otherwise a `/` is put between them unless the base is
/// empty or ends with one.
pub open spec fn path_join(base: Seq<char>, part: Seq<char>) -> Seq<char> {
    if part.len() > 0 && part[0] == '/' {
        part
    } else if base.len() == 0 || base.last() == '/' {
        base + part
    } else {
        base + seq!['/'] + part
    }
}

/// The configuration directory below a home directory.
pub open spec fn config_dir_spec(home: Seq<char>) -> Seq<char> {
    path_join(path_join(home, ".config"@), "bones"@)
}

/// The file of a profile in a configuration directory.
pub open spec fn config_file_spec(dir: Seq<char>, name: Seq<char>) -> Seq<char> {
    path_join(dir, name + "-config.toml"@)
}

/// A profile's configuration file lies directly in the configuration
/// directory and is named after the profile: `<dir>/<name>-config.toml`, for
/// every profile name the layer accepts.
pub proof fn law_profile_file_in_config_dir(dir: Seq<char>, name: Seq<char>)
    requires
        valid_profile_name(name),
    ensures
        config_file_spec(dir, name) == dir + (if dir.len() == 0 || dir.last() == '/' {
            Seq::<char>::empty()
        } else {
            seq!['/']
        }) + name + "-config.toml"@,
{
    let part = name + "-config.toml"@;
    assert(part[0] == name[0]);
    assert(name[0] != '/') by {
        if name[0] == '/' {
            assert(name.contains('/'));
        }
    }
    if dir.len() == 0 || dir.last() == '/' {
        assert(dir + Seq::<char>::empty() =~= dir);
    }
    assert(dir + part =~= dir + Seq::<char>::empty() + name + "-config.toml"@);
    assert(dir + seq!['/'] + part =~= dir + seq!['/'] + name + "-config.toml"@);
}

/// `base` joined with `part` (`PathBuf::join`).
pub fn join_path(base: &str, part: &str) -> (r: String)
    ensures
        r@ == path_join(base@, part@),
{
    let pc = chars_of(part);
    let bc = chars_of(base);
    if pc.len() > 0 && pc[0] == '/' {
        part.to_owned()
    } else if bc.len() == 0 || bc[bc.len() - 1] == '/' {
        let mut r = base.to_owned();
        r.append(part);
        r
    } else {
        let mut r = base.to_owned();
        r.append("/");
        proof {
            reveal_strlit("/");
        }
        r.append(part);
        r
    }
}

/// The home directory.
pub fn home_dir(env: &EnvVars) -> (r: String)
    ensures
        r@ == home_spec(env.vars@),
{
    env_home(env)
}

/// The configuration directory, `~/.config/bones`.
pub fn config_dir(env: &EnvVars) -> (r: String)
    ensures
        r@ == config_dir_spec(home_spec(env.vars@)),
{
    let h = home_dir(env);
    let c = join_path(h.as_str(), ".config");
    join_path(c.as_str(), "bones")
}

/// The profile selected by `BONES_CONFIG_NAME`, sanitized.
pub fn profile_name(env: &EnvVars) -> (r: String)
    ensures
        r@ == sanitized(env_string_spec(env.vars@, ENV_CONFIG_NAME@, DEFAULT_PROFILE@)),
{
    let n = env_config_name(env);
    sanitize_name(n.as_str())
}

/// The configuration file of profile `name`, `<dir>/<name>-config.toml`.
pub fn config_path(env: &EnvVars, name: &str) -> (r: String)
    ensures
        r@ == config_file_spec(config_dir_spec(home_spec(env.vars@)), name@),
{
    let d = config_dir(env);
    let mut f = name.to_owned();
    f.append("-config.toml");
    join_path(d.as_str(), f.as_str())
}

/// The effect switches of env-mode: the inline list when set, else none.
pub open spec fn env_effects_map(vars: Seq<(String, String)>, reg: Seq<EffectDef>) -> Map<Seq<char>, bool> {
    match nonempty_value(vars, ENV_CONFIG@) {
        Some(t) => pairs_to_map(list_pairs(split_spec(t, ';'), reg)),
        None => Map::empty(),
    }
}

/// The effect switches that the environment sets.
pub fn env_effects(env: &EnvVars, reg: &[EffectDef]) -> (r: EffectMap)
    ensures
        r@ == env_effects_map(env.vars@, reg@),
{
    match env_config_inline(env) {
        Some(t) => effects_from_list(t.as_str(), reg),
        None => EffectMap::new(),
    }
}

/// Everything `s` holds when it was read from the environment.
pub open spec fn settings_match_env(s: Settings, vars: Seq<(String, String)>, reg: Seq<EffectDef>) -> bool {
    &&& s.effects@ == env_effects_map(vars, reg)
    &&& !s.hot_reload
    &&& match s.res_scale {
        ScaleSpec::Text(t) => nonempty_value(vars, ENV_RES_SCALE@) == Some(t@),
        ScaleSpec::Default => nonempty_value(vars, ENV_RES_SCALE@) is None,
        _ => false,
    }
    &&& s.opt_fp16
    &&& s.opt_dynren == env_bool_spec(vars, ENV_OPT_DYNREN@, true)
    &&& s.opt_pushdesc == env_bool_spec(vars, ENV_OPT_PUSHDESC@, true)
    &&& s.opt_subgroup
    &&& s.opt_sync2 == env_bool_spec(vars, ENV_OPT_SYNC2@, true)
    &&& s.opt_mutable_fmt == env_bool_spec(vars, ENV_OPT_MUTABLE_FMT@, true)
    &&& s.opt_subgroup_ext_types
    &&& s.opt_subgroup_uniform_flow
    &&& s.opt_async_compute == env_bool_spec(vars, ENV_OPT_ASYNC_COMPUTE@, true)
    &&& s.compute == env_bool_spec(vars, ENV_COMPUTE@, true)
    &&& s.compute_x == env_uint_spec(vars, ENV_COMPUTE_X@, COMPUTE_X_DEFAULT)
    &&& s.compute_y == env_uint_spec(vars, ENV_COMPUTE_Y@, COMPUTE_Y_DEFAULT)
}

/// In env-mode every fast-path and pipeline switch is on unless its variable
/// is set to `0` or `false`, and off exactly then: an unset, empty or
/// unreadable variable leaves the switch on.
pub proof fn law_env_switches_follow_their_variables(s: Settings, vars: Seq<(String, String)>, reg: Seq<EffectDef>)
    requires
        settings_match_env(s, vars, reg),
    ensures
        s.opt_dynren == !(nonempty_value(vars, ENV_OPT_DYNREN@) == Some("0"@) || nonempty_value(vars, ENV_OPT_DYNREN@)
            == Some("false"@)),
        s.opt_pushdesc == !(nonempty_value(vars, ENV_OPT_PUSHDESC@) == Some("0"@) || nonempty_value(
            vars,
            ENV_OPT_PUSHDESC@,
        ) == Some("false"@)),
        s.opt_sync2 == !(nonempty_value(vars, ENV_OPT_SYNC2@) == Some("0"@) || nonempty_value(vars, ENV_OPT_SYNC2@)
            == Some("false"@)),
        s.opt_mutable_fmt == !(nonempty_value(vars, ENV_OPT_MUTABLE_FMT@) == Some("0"@) || nonempty_value(
            vars,
            ENV_OPT_MUTABLE_FMT@,
        ) == Some("false"@)),
        s.opt_async_compute == !(nonempty_value(vars, ENV_OPT_ASYNC_COMPUTE@) == Some("0"@) || nonempty_value(
            vars,
            ENV_OPT_ASYNC_COMPUTE@,
        ) == Some("false"@)),
        s.compute == !(nonempty_value(vars, ENV_COMPUTE@) == Some("0"@) || nonempty_value(vars, ENV_COMPUTE@)
            == Some("false"@)),
{
    reveal_strlit("0");
    reveal_strlit("1");
    reveal_strlit("true");
    reveal_strlit("false");
    assert("0"@.len() == 1 && "0"@[0] == '0');
    assert("1"@.len() == 1 && "1"@[0] == '1');
    assert("true"@.len() == 4);
    assert("false"@.len() == 5);
}

/// The settings of env-mode, read from the environment alone; hot reload is off.
pub fn settings_from_env(env: &EnvVars, reg: &[EffectDef]) -> (r: Settings)
    ensures
        settings_match_env(r, env.vars@, reg@),
{
    Settings {
        effects: env_effects(env, reg),
        hot_reload: false,
        res_scale: env_res_scale(env),
        opt_fp16: true,
        opt_dynren: env_bool(env, ENV_OPT_DYNREN, true),
        opt_pushdesc: env_bool(env, ENV_OPT_PUSHDESC, true),
        opt_subgroup: true,
        opt_sync2: env_bool(env, ENV_OPT_SYNC2, true),
        opt_mutable_fmt: env_bool(env, ENV_OPT_MUTABLE_FMT, true),
        opt_subgroup_ext_types: true,
        opt_subgroup_uniform_flow: true,
        opt_async_compute: env_bool(env, ENV_OPT_ASYNC_COMPUTE, true),
        compute: env_bool(env, ENV_COMPUTE, true),
        compute_x: env_uint(env, ENV_COMPUTE_X, COMPUTE_X_DEFAULT),
        compute_y: env_uint(env, ENV_COMPUTE_Y, COMPUTE_Y_DEFAULT),
    }
}

/// The settings in force: from the environment in env-mode, else from the
/// profile's configuration file (`file_text`, what reading the path that
/// `config_path` names gave), or the default configuration `head` when it
/// could not be read.
pub fn resolve_settings(env: &EnvVars, file_text: Option<&str>, head: &str, reg: &[EffectDef]) -> (r: Settings)
    ensures
        env_mode_spec(env.vars@) ==> settings_match_env(r, env.vars@, reg@),
        !env_mode_spec(env.vars@) ==> settings_match_doc(
            r,
            doc_entries_of(
                match file_text {
                    Some(t) => t@,
                    None => head@,
                },
            ),
            reg@,
        ),
{
    if env_bypass_active(env) {
        settings_from_env(env, reg)
    } else {
        read_config(file_text, head, reg)
    }
}


proof fn lemma_pairs_keys(pairs: Seq<(Seq<char>, bool)>)
    ensures
        forall|k: Seq<char>| #[trigger] pairs_to_map(pairs).contains_key(k) ==> exists|i: int|
            0 <= i < pairs.len() && pairs[i].0 == k && pairs_to_map(pairs)[k] == pairs[i].1,
    decreases pairs.len(),
{
    if pairs.len() > 0 {
        let p = pairs.drop_last();
        lemma_pairs_keys(p);
        assert forall|k: Seq<char>| #[trigger] pairs_to_map(pairs).contains_key(k) implies exists|i: int|
            0 <= i < pairs.len() && pairs[i].0 == k && pairs_to_map(pairs)[k] == pairs[i].1 by {
            if k == pairs.last().0 {
                assert(pairs[pairs.len() - 1] == pairs.last());
            } else {
                let i = choose|i: int| 0 <= i < p.len() && p[i].0 == k && pairs_to_map(p)[k] == p[i].1;
                assert(pairs[i] == p[i]);
            }
        }
    }
}

proof fn lemma_section_pairs_effects(es: Seq<(String, TomlScalar)>, reg: Seq<EffectDef>)
    ensures
        forall|i: int|
            0 <= i < section_pairs(es, reg).len() ==> is_registry_name(reg, #[trigger] section_pairs(es, reg)[i].0)
                && !is_general_name(section_pairs(es, reg)[i].0),
    decreases es.len(),
{
    if es.len() > 0 {
        lemma_section_pairs_effects(es.drop_last(), reg);
        let prev = section_pairs(es.drop_last(), reg);
        match classify_spec(es.last().0@, es.last().1, reg) {
            Some(p) => {
                assert forall|i: int| 0 <= i < prev.push(p).len() implies is_registry_name(reg, #[trigger] prev.push(p)[i].0)
                    && !is_general_name(prev.push(p)[i].0) by {
                    if i < prev.len() {
                        assert(prev.push(p)[i] == prev[i]);
                    }
                }
            },
            None => {},
        }
    }
}

proof fn lemma_doc_pairs_effects(entries: Seq<(String, TomlItem)>, reg: Seq<EffectDef>)
    ensures
        forall|i: int|
            0 <= i < doc_pairs(entries, reg).len() ==> is_registry_name(reg, #[trigger] doc_pairs(entries, reg)[i].0)
                && !is_general_name(doc_pairs(entries, reg)[i].0),
    decreases entries.len(),
{
    if entries.len() > 0 {
        lemma_doc_pairs_effects(entries.drop_last(), reg);
        let a = doc_pairs(entries.drop_last(), reg);
        let b = item_pairs(entries.last().1, reg);
        match entries.last().1 {
            TomlItem::Table(es) => lemma_section_pairs_effects(es@, reg),
            TomlItem::Scalar(_) => {},
        }
        assert forall|i: int| 0 <= i < (a + b).len() implies is_registry_name(reg, #[trigger] (a + b)[i].0)
            && !is_general_name((a + b)[i].0) by {
            if i < a.len() {
                assert((a + b)[i] == a[i]);
            } else {
                assert((a + b)[i] == b[i - a.len()]);
            }
        }
    }
}

/// The key and value at position `j` of the `i`-th top-level entry, when
/// that entry is a table with such a position.
pub open spec fn key_at(entries: Seq<(String, TomlItem)>, i: int, j: int) -> Option<(Seq<char>, TomlScalar)> {
    if 0 <= i < entries.len() {
        match entries[i].1 {
            TomlItem::Table(es) => if 0 <= j < es@.len() {
                Some((es@[j].0@, es@[j].1))
            } else {
                None
            },
            TomlItem::Scalar(_) => None,
        }
    } else {
        None
    }
}

/// The key at that position is `name` with a boolean value.
pub open spec fn bool_key(entries: Seq<(String, TomlItem)>, i: int, j: int, name: Seq<char>) -> bool {
    match key_at(entries, i, j) {
        Some((n, TomlScalar::Boolean(_))) => n == name,
        _ => false,
    }
}

proof fn lemma_map_concat(x: Seq<(Seq<char>, bool)>, y: Seq<(Seq<char>, bool)>, n: Seq<char>)
    ensures
        pairs_to_map(y).contains_key(n) ==> pairs_to_map(x + y).contains_key(n) && pairs_to_map(x + y)[n]
            == pairs_to_map(y)[n],
        !pairs_to_map(y).contains_key(n) ==> (pairs_to_map(x + y).contains_key(n) == pairs_to_map(x).contains_key(n))
            && pairs_to_map(x + y)[n] == pairs_to_map(x)[n],
    decreases y.len(),
{
    if y.len() == 0 {
        assert(x + y =~= x);
    } else {
        assert((x + y).drop_last() =~= x + y.drop_last());
        assert((x + y).last() == y.last());
        lemma_map_concat(x, y.drop_last(), n);
    }
}

proof fn lemma_section_last(es: Seq<(String, TomlScalar)>, reg: Seq<EffectDef>, j: int, name: Seq<char>, b: bool)
    requires
        0 <= j < es.len(),
        es[j].0@ == name,
        es[j].1 == TomlScalar::Boolean(b),
        is_registry_name(reg, name),
        !is_general_name(name),
        forall|j2: int| j < j2 < es.len() ==> !(#[trigger] es[j2].0@ == name && es[j2].1 is Boolean),
    ensures
        pairs_to_map(section_pairs(es, reg)).contains_key(name),
        pairs_to_map(section_pairs(es, reg))[name] == b,
    decreases es.len(),
{
    let last = es.len() - 1;
    let prev = section_pairs(es.drop_last(), reg);
    assert(es.last() == es[last]);
    match classify_spec(es.last().0@, es.last().1, reg) {
        Some(p) => {
            assert(section_pairs(es, reg) == prev.push(p));
            assert(prev.push(p).drop_last() =~= prev);
            assert(pairs_to_map(prev.push(p)) == pairs_to_map(prev).insert(p.0, p.1));
        },
        None => {},
    }
    if j < last {
        lemma_section_last(es.drop_last(), reg, j, name, b);
        assert(es.drop_last()[j] == es[j]);
        assert forall|j2: int| j < j2 < es.drop_last().len() implies !(#[trigger] es.drop_last()[j2].0@ == name
            && es.drop_last()[j2].1 is Boolean) by {
            assert(es.drop_last()[j2] == es[j2]);
        }
        assert(!(es[last].0@ == name && es[last].1 is Boolean));
    }
}

proof fn lemma_section_none(es: Seq<(String, TomlScalar)>, reg: Seq<EffectDef>, name: Seq<char>)
    requires
        forall|j2: int| 0 <= j2 < es.len() ==> !(#[trigger] es[j2].0@ == name && es[j2].1 is Boolean),
    ensures
        !pairs_to_map(section_pairs(es, reg)).contains_key(name),
    decreases es.len(),
{
    if es.len() > 0 {
        assert forall|j2: int| 0 <= j2 < es.drop_last().len() implies !(#[trigger] es.drop_last()[j2].0@ == name
            && es.drop_last()[j2].1 is Boolean) by {
            assert(es.drop_last()[j2] == es[j2]);
        }
        lemma_section_none(es.drop_last(), reg, name);
        assert(es.last() == es[es.len() - 1]);
        let prev = section_pairs(es.drop_last(), reg);
        match classify_spec(es.last().0@, es.last().1, reg) {
            Some(p) => {
                assert(section_pairs(es, reg) == prev.push(p));
                assert(prev.push(p).drop_last() =~= prev);
                assert(pairs_to_map(prev.push(p)) == pairs_to_map(prev).insert(p.0, p.1));
            },
            None => {},
        }
    }
}

/// No key occurs twice in a table (as TOML guarantees).
pub open spec fn keys_distinct(es: Seq<(String, TomlScalar)>) -> bool {
    forall|a: int, b: int| 0 <= a < b < es.len() ==> es[a].0@ != es[b].0@
}

proof fn lemma_find_from_back(es: Seq<(String, TomlScalar)>, key: Seq<char>)
    requires
        keys_distinct(es),
        es.len() > 0,
    ensures
        find_entry(es, key) == (if es.last().0@ == key {
            Some(es.last().1)
        } else {
            find_entry(es.drop_last(), key)
        }),
    decreases es.len(),
{
    let n = es.len();
    assert(es.last() == es[n - 1]);
    if n == 1 {
        assert(es.drop_first().len() == 0);
        assert(es.drop_last().len() == 0);
        assert(find_entry(es.drop_first(), key) is None);
        assert(find_entry(es.drop_last(), key) is None);
    } else {
        let dl = es.drop_last();
        let df = es.drop_first();
        assert(dl[0] == es[0]);
        assert(dl.drop_first() =~= df.drop_last());
        assert(find_entry(dl, key) == (if dl[0].0@ == key {
            Some(dl[0].1)
        } else {
            find_entry(dl.drop_first(), key)
        }));
        if es[0].0@ != key {
            assert(df.last() == es.last());
            assert(keys_distinct(df)) by {
                assert forall|a: int, b: int| 0 <= a < b < df.len() implies df[a].0@ != df[b].0@ by {
                    assert(df[a] == es[a + 1]);
                    assert(df[b] == es[b + 1]);
                }
            }
            lemma_find_from_back(df, key);
        } else {
            assert(es[0].0@ != es[n - 1].0@);
        }
    }
}

proof fn lemma_find_some(es: Seq<(String, TomlScalar)>, key: Seq<char>)
    ensures
        find_entry(es, key) is Some ==> exists|j: int| 0 <= j < es.len() && es[j].0@ == key,
    decreases es.len(),
{
    if es.len() > 0 && es[0].0@ != key {
        lemma_find_some(es.drop_first(), key);
        if find_entry(es, key) is Some {
            let j = choose|j: int| 0 <= j < es.drop_first().len() && es.drop_first()[j].0@ == key;
            assert(es[j + 1] == es.drop_first()[j]);
        }
    }
}

proof fn lemma_general_flag(es: Seq<(String, TomlScalar)>, key: Seq<char>)
    requires
        keys_distinct(es),
        is_general_bool_name(key),
    ensures
        flag_or(pairs_to_map(general_flag_pairs(es)), key, true) == (match find_entry(es, key) {
            Some(TomlScalar::Boolean(b)) => b,
            _ => true,
        }),
    decreases es.len(),
{
    if es.len() > 0 {
        let p = es.drop_last();
        assert(keys_distinct(p)) by {
            assert forall|a: int, b: int| 0 <= a < b < p.len() implies p[a].0@ != p[b].0@ by {
                assert(p[a] == es[a]);
                assert(p[b] == es[b]);
            }
        }
        lemma_general_flag(p, key);
        lemma_find_from_back(es, key);
        lemma_find_some(p, key);
        let prev = general_flag_pairs(p);
        let last = es.last();
        assert(last == es[es.len() - 1]);
        if last.0@ == key {
            assert forall|j: int| 0 <= j < p.len() implies p[j].0@ != key by {
                assert(p[j] == es[j]);
            }
            assert(find_entry(p, key) is None);
        }
        match last.1 {
            TomlScalar::Boolean(b) => if is_general_bool_name(last.0@) {
                assert(general_flag_pairs(es) == prev.push((last.0@, b)));
                assert(prev.push((last.0@, b)).drop_last() =~= prev);
                assert(pairs_to_map(prev.push((last.0@, b))) == pairs_to_map(prev).insert(last.0@, b));
            } else {
                assert(general_flag_pairs(es) == prev);
            },
            _ => {
                assert(general_flag_pairs(es) == prev);
            },
        }
    }
}

/// A configuration file sets each fast-path and pipeline switch by the
/// boolean under its key in `[general]`; with no boolean there (no such key, a
/// value of another type, or no `[general]` table) the switch is on.
pub proof fn law_general_switches_follow_the_file(s: Settings, entries: Seq<(String, TomlItem)>, reg: Seq<EffectDef>)
    requires
        settings_match_doc(s, entries, reg),
        general_entries(entries) matches Some(es) ==> keys_distinct(es),
    ensures
        s.opt_dynren == (match general_value(entries, OPT_DYNREN_KEY@) {
            Some(TomlScalar::Boolean(b)) => b,
            _ => true,
        }),
        s.opt_pushdesc == (match general_value(entries, OPT_PUSHDESC_KEY@) {
            Some(TomlScalar::Boolean(b)) => b,
            _ => true,
        }),
        s.opt_sync2 == (match general_value(entries, OPT_SYNC2_KEY@) {
            Some(TomlScalar::Boolean(b)) => b,
            _ => true,
        }),
        s.opt_mutable_fmt == (match general_value(entries, OPT_MUTABLE_FMT_KEY@) {
            Some(TomlScalar::Boolean(b)) => b,
            _ => true,
        }),
        s.opt_async_compute == (match general_value(entries, OPT_ASYNC_COMPUTE_KEY@) {
            Some(TomlScalar::Boolean(b)) => b,
            _ => true,
        }),
        s.compute == (match general_value(entries, COMPUTE_KEY@) {
            Some(TomlScalar::Boolean(b)) => b,
            _ => true,
        }),
{
    match general_entries(entries) {
        Some(es) => {
            lemma_general_flag(es, OPT_DYNREN_KEY@);
            lemma_general_flag(es, OPT_PUSHDESC_KEY@);
            lemma_general_flag(es, OPT_SYNC2_KEY@);
            lemma_general_flag(es, OPT_MUTABLE_FMT_KEY@);
            lemma_general_flag(es, OPT_ASYNC_COMPUTE_KEY@);
            lemma_general_flag(es, COMPUTE_KEY@);
        },
        None => {},
    }
}

/// A configuration file switches every effect it names with a boolean value,
/// in every section: the effect's switch is the value of its last boolean
/// occurrence in the file (later keys in the same section, then later
/// sections, override earlier ones).
pub proof fn law_last_switch_in_file_wins(
    entries: Seq<(String, TomlItem)>,
    reg: Seq<EffectDef>,
    i: int,
    j: int,
    name: Seq<char>,
    b: bool,
)
    requires
        key_at(entries, i, j) == Some((name, TomlScalar::Boolean(b))),
        is_registry_name(reg, name),
        !is_general_name(name),
        forall|i2: int, j2: int| (i2 > i || (i2 == i && j2 > j)) ==> !#[trigger] bool_key(entries, i2, j2, name),
    ensures
        pairs_to_map(doc_pairs(entries, reg)).contains_key(name),
        pairs_to_map(doc_pairs(entries, reg))[name] == b,
    decreases entries.len(),
{
    let last = entries.len() - 1;
    let prefix = entries.drop_last();
    assert(entries.last() == entries[last]);
    lemma_map_concat(doc_pairs(prefix, reg), item_pairs(entries[last].1, reg), name);
    if i == last {
        match entries[last].1 {
            TomlItem::Table(es) => {
                assert forall|j2: int| j < j2 < es@.len() implies !(#[trigger] es@[j2].0@ == name && es@[j2].1 is Boolean) by {
                    assert(!bool_key(entries, i, j2, name));
                }
                lemma_section_last(es@, reg, j, name, b);
            },
            TomlItem::Scalar(_) => {},
        }
    } else {
        assert forall|i2: int, j2: int| (i2 > i || (i2 == i && j2 > j)) implies !#[trigger] bool_key(prefix, i2, j2, name) by {
            if 0 <= i2 < prefix.len() {
                assert(prefix[i2] == entries[i2]);
                assert(key_at(prefix, i2, j2) == key_at(entries, i2, j2));
                assert(!bool_key(entries, i2, j2, name));
            }
        }
        assert(prefix[i] == entries[i]);
        assert(key_at(prefix, i, j) == key_at(entries, i, j));
        law_last_switch_in_file_wins(prefix, reg, i, j, name, b);
        match entries[last].1 {
            TomlItem::Table(es) => {
                assert forall|j2: int| 0 <= j2 < es@.len() implies !(#[trigger] es@[j2].0@ == name && es@[j2].1 is Boolean) by {
                    assert(!bool_key(entries, last, j2, name));
                }
                lemma_section_none(es@, reg, name);
            },
            TomlItem::Scalar(_) => {
                assert(item_pairs(entries[last].1, reg) =~= Seq::<(Seq<char>, bool)>::empty());
            },
        }
    }
}

/// Only effects are switched by a configuration file: every switch read from
/// a document names an effect of the registry, never a general setting, and
/// unknown keys are ignored.
pub proof fn law_config_switches_name_effects(entries: Seq<(String, TomlItem)>, reg: Seq<EffectDef>, k: Seq<char>)
    requires
        pairs_to_map(doc_pairs(entries, reg)).contains_key(k),
    ensures
        is_registry_name(reg, k),
        !is_general_name(k),
{
    lemma_pairs_keys(doc_pairs(entries, reg));
    lemma_doc_pairs_effects(entries, reg);
    let i = choose|i: int| 0 <= i < doc_pairs(entries, reg).len() && doc_pairs(entries, reg)[i].0 == k && pairs_to_map(
        doc_pairs(entries, reg),
    )[k] == doc_pairs(entries, reg)[i].1;
    assert(is_registry_name(reg, doc_pairs(entries, reg)[i].0));
}

#[verifier::spinoff_prover]
proof fn lemma_list_pairs_known(pieces: Seq<Seq<char>>, reg: Seq<EffectDef>)
    ensures
        forall|i: int|
            0 <= i < list_pairs(pieces, reg).len() ==> is_known_name(reg, #[trigger] list_pairs(pieces, reg)[i].0)
                && list_pairs(pieces, reg)[i].1,
    decreases pieces.len(),
{
    if pieces.len() > 0 {
        lemma_list_pairs_known(pieces.drop_last(), reg);
        let prev = list_pairs(pieces.drop_last(), reg);
        let t = trim_spec(pieces.last());
        if t.len() > 0 && is_known_name(reg, t) {
            assert(list_pairs(pieces, reg) == prev.push((t, true)));
            assert forall|i: int| 0 <= i < prev.push((t, true)).len() implies is_known_name(
                reg,
                #[trigger] prev.push((t, true))[i].0,
            ) && prev.push((t, true))[i].1 by {
                if i < prev.len() {
                    assert(prev.push((t, true))[i] == prev[i]);
                }
            }
        } else {
            assert(list_pairs(pieces, reg) == prev);
        }
    }
}

/// An inline effect list only switches known names on: every switch it sets
/// is on and names a known key; unknown names are ignored.
pub proof fn law_inline_list_switches_known_names_on(vars: Seq<(String, String)>, reg: Seq<EffectDef>, k: Seq<char>)
    requires
        env_effects_map(vars, reg).contains_key(k),
    ensures
        is_known_name(reg, k),
        env_effects_map(vars, reg)[k],
{
    match nonempty_value(vars, ENV_CONFIG@) {
        Some(t) => {
            let ps = list_pairs(split_spec(t, ';'), reg);
            lemma_pairs_keys(ps);
            lemma_list_pairs_known(split_spec(t, ';'), reg);
            let i = choose|i: int| 0 <= i < ps.len() && ps[i].0 == k && pairs_to_map(ps)[k] == ps[i].1;
            assert(is_known_name(reg, ps[i].0) && ps[i].1);
        },
        None => {},
    }
}

/// Setting `BONES_CONFIG`, even to an empty string, turns env-mode on, and
/// the empty list switches no effect on: a forced clean pass.
pub proof fn law_empty_inline_list_is_clean_env_mode(vars: Seq<(String, String)>, reg: Seq<EffectDef>)
    requires
        crate::env::env_value(vars, ENV_CONFIG@) == Some(Seq::<char>::empty()),
    ensures
        env_mode_spec(vars),
        env_effects_map(vars, reg) == Map::<Seq<char>, bool>::empty(),
{
}

} // verus!
