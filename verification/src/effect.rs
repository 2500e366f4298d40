//! Which effects are on, and the ubershader body: the GLSL fragments of the
//! enabled effects concatenated in the fixed pipeline order.
use vstd::prelude::*;

use crate::config::Settings;
use crate::registry::EffectDef;
use crate::registry::EffectKind;

verus! {

/// The map that a list of `(name, on)` pairs denotes when later pairs override
/// earlier ones for the same name (collecting pairs into a map).
pub open spec fn pairs_to_map(pairs: Seq<(Seq<char>, bool)>) -> Map<Seq<char>, bool>
    decreases pairs.len(),
{
    if pairs.len() == 0 {
        Map::empty()
    } else {
        pairs_to_map(pairs.drop_last()).insert(pairs.last().0, pairs.last().1)
    }
}

/// The views of a list of `(String, bool)` pairs.
pub open spec fn pair_views(pairs: Seq<(String, bool)>) -> Seq<(Seq<char>, bool)> {
    pairs.map_values(|p: (String, bool)| (p.0@, p.1))
}

/// The effect switches read from a configuration: effect name to on/off.
pub struct EffectMap {
    pairs: Vec<(String, bool)>,
}

impl View for EffectMap {
    type V = Map<Seq<char>, bool>;

    closed spec fn view(&self) -> Map<Seq<char>, bool> {
        pairs_to_map(pair_views(self.pairs@))
    }
}

/// Whether the switch for `name` is present and on.
pub open spec fn effect_on(m: Map<Seq<char>, bool>, name: Seq<char>) -> bool {
    m.contains_key(name) && m[name]
}

proof fn lemma_pairs_to_map_push(pairs: Seq<(Seq<char>, bool)>, p: (Seq<char>, bool))
    ensures
        pairs_to_map(pairs.push(p)) == pairs_to_map(pairs).insert(p.0, p.1),
{
    assert(pairs.push(p).drop_last() =~= pairs);
}

impl EffectMap {
    /// No switches.
    pub fn new() -> (r: EffectMap)
        ensures
            r@ == Map::<Seq<char>, bool>::empty(),
    {
        EffectMap { pairs: Vec::new() }
    }

    /// The switches that `pairs` denote, later pairs overriding earlier ones.
    pub fn from_pairs(pairs: Vec<(String, bool)>) -> (r: EffectMap)
        ensures
            r@ == pairs_to_map(pair_views(pairs@)),
    {
        EffectMap { pairs }
    }

    /// Sets the switch for `name` to `on`.
    pub fn insert(&mut self, name: String, on: bool)
        ensures
            final(self)@ == old(self)@.insert(name@, on),
    {
        let ghost before = self.pairs@;
        self.pairs.push((name, on));
        proof {
            assert(pair_views(self.pairs@) =~= pair_views(before).push((name@, on)));
            lemma_pairs_to_map_push(pair_views(before), (name@, on));
        }
    }

    /// The switch for `name`, if there is one.
    pub fn get(&self, name: &str) -> (r: Option<bool>)
        ensures
            r == (if self@.contains_key(name@) {
                Some(self@[name@])
            } else {
                None
            }),
    {
        let key = name.to_owned();
        let ghost pv = pair_views(self.pairs@);
        let mut i: usize = self.pairs.len();
        assert(pv.take(i as int) =~= pv);
        while i > 0
            invariant
                pv == pair_views(self.pairs@),
                key@ == name@,
                i <= self.pairs.len(),
                pairs_to_map(pv).contains_key(name@) == pairs_to_map(pv.take(i as int)).contains_key(name@),
                pairs_to_map(pv).contains_key(name@) ==> pairs_to_map(pv)[name@] == pairs_to_map(pv.take(i as int))[name@],
            decreases i,
        {
            let k = i - 1;
            assert(pv.take(i as int).drop_last() =~= pv.take(k as int));
            assert(pv[k as int] == (self.pairs@[k as int].0@, self.pairs@[k as int].1));
            if self.pairs[k].0 == key {
                return Some(self.pairs[k].1);
            }
            i = k;
        }
        None
    }
}

/// An effect's GLSL fragment: the effect whose switch includes it, and its source.
pub struct FragDef {
    pub name: String,
    pub src: String,
}

/// A shared sampling block that is included when any of its consumers is on.
pub struct RoleDef {
    pub src: String,
    pub consumers: Vec<String>,
}

/// The GLSL pieces that make up the ubershader body.
pub struct ShaderCatalog {
    pub uv_warp: Vec<FragDef>,
    pub spatial: Vec<FragDef>,
    pub spatial_tail: Vec<FragDef>,
    pub grade: Vec<FragDef>,
    pub grade_frame: Vec<FragDef>,
    pub grade_hardware: Vec<FragDef>,
    pub pre_temporal: Vec<FragDef>,
    pub temporal: Vec<FragDef>,
    pub noise: Vec<FragDef>,
    pub overlay: Vec<FragDef>,
    pub tap_roles: Vec<RoleDef>,
    pub graded_roles: Vec<RoleDef>,
    pub grade_open: String,
    pub grade_clamp: String,
    pub grade_close: String,
    pub main_open: String,
    pub main_fetch: String,
    pub main_fetch_chromatic: String,
    pub main_grade: String,
    pub main_close: String,
    pub history: String,
    pub history_hud_mask: String,
    pub hud_box: String,
    pub stabilizer: String,
}

/// The views of a sequence of string slices.
pub open spec fn str_views(v: Seq<&str>) -> Seq<Seq<char>> {
    v.map_values(|s: &str| s@)
}

/// Some effect of `reg` is on.
pub open spec fn any_on(m: Map<Seq<char>, bool>, reg: Seq<EffectDef>) -> bool {
    exists|i: int| 0 <= i < reg.len() && effect_on(m, #[trigger] reg[i].name@)
}

/// Some effect of `reg` of category `kind` is on.
pub open spec fn any_of_kind_on(m: Map<Seq<char>, bool>, reg: Seq<EffectDef>, kind: EffectKind) -> bool {
    exists|i: int| 0 <= i < reg.len() && #[trigger] reg[i].kind == kind && effect_on(m, reg[i].name@)
}

/// Some consumer of a role is on.
pub open spec fn role_on(m: Map<Seq<char>, bool>, role: RoleDef) -> bool {
    exists|i: int| 0 <= i < role.consumers@.len() && effect_on(m, #[trigger] role.consumers@[i]@)
}

/// The sources of the fragments whose effect is on, in list order.
pub open spec fn enabled_srcs(m: Map<Seq<char>, bool>, frags: Seq<FragDef>) -> Seq<Seq<char>>
    decreases frags.len(),
{
    if frags.len() == 0 {
        Seq::empty()
    } else {
        let prev = enabled_srcs(m, frags.drop_last());
        if effect_on(m, frags.last().name@) {
            prev.push(frags.last().src@)
        } else {
            prev
        }
    }
}

/// The sources of the roles with a consumer on, in list order.
pub open spec fn active_srcs(m: Map<Seq<char>, bool>, roles: Seq<RoleDef>) -> Seq<Seq<char>>
    decreases roles.len(),
{
    if roles.len() == 0 {
        Seq::empty()
    } else {
        let prev = active_srcs(m, roles.drop_last());
        if role_on(m, roles.last()) {
            prev.push(roles.last().src@)
        } else {
            prev
        }
    }
}

/// Whether the effect `name` is switched on in `s`.
pub fn enabled(s: &Settings, name: &str) -> (r: bool)
    ensures
        r == effect_on(s.effects@, name@),
{
    match s.effects.get(name) {
        Some(v) => v,
        None => false,
    }
}

/// Whether any effect of `reg` is on.
pub fn any_effect_enabled(s: &Settings, reg: &[EffectDef]) -> (r: bool)
    ensures
        r == any_on(s.effects@, reg@),
{
    let mut i: usize = 0;
    while i < reg.len()
        invariant
            i <= reg.len(),
            forall|k: int| 0 <= k < i ==> !effect_on(s.effects@, #[trigger] reg@[k].name@),
        decreases reg.len() - i,
    {
        if enabled(s, reg[i].name) {
            return true;
        }
        i = i + 1;
    }
    false
}

/// Whether any effect of `reg` of category `kind` is on.
pub fn any_of_kind_enabled(s: &Settings, reg: &[EffectDef], kind: EffectKind) -> (r: bool)
    ensures
        r == any_of_kind_on(s.effects@, reg@, kind),
{
    let mut i: usize = 0;
    while i < reg.len()
        invariant
            i <= reg.len(),
            forall|k: int|
                0 <= k < i ==> !(#[trigger] reg@[k].kind == kind && effect_on(s.effects@, reg@[k].name@)),
        decreases reg.len() - i,
    {
        if reg[i].kind == kind && enabled(s, reg[i].name) {
            return true;
        }
        i = i + 1;
    }
    false
}

/// Whether any temporal effect is on.
pub fn temporal_enabled(s: &Settings, reg: &[EffectDef]) -> (r: bool)
    ensures
        r == any_of_kind_on(s.effects@, reg@, EffectKind::Temporal),
{
    any_of_kind_enabled(s, reg, EffectKind::Temporal)
}

/// Whether any consumer of `role` is on.
pub fn role_active(s: &Settings, role: &RoleDef) -> (r: bool)
    ensures
        r == role_on(s.effects@, *role),
{
    let mut i: usize = 0;
    while i < role.consumers.len()
        invariant
            i <= role.consumers.len(),
            forall|k: int| 0 <= k < i ==> !effect_on(s.effects@, #[trigger] role.consumers@[k]@),
        decreases role.consumers.len() - i,
    {
        if enabled(s, role.consumers[i].as_str()) {
            return true;
        }
        i = i + 1;
    }
    false
}

/// The sources of the fragments in `frags` whose effect is on, in list order.
pub fn enabled_frags<'a>(s: &Settings, frags: &'a [FragDef]) -> (r: Vec<&'a str>)
    ensures
        str_views(r@) == enabled_srcs(s.effects@, frags@),
{
    let mut out: Vec<&'a str> = Vec::new();
    let mut i: usize = 0;
    while i < frags.len()
        invariant
            i <= frags.len(),
            str_views(out@) == enabled_srcs(s.effects@, frags@.take(i as int)),
        decreases frags.len() - i,
    {
        assert(frags@.take(i + 1).drop_last() =~= frags@.take(i as int));
        let ghost before = str_views(out@);
        if enabled(s, frags[i].name.as_str()) {
            out.push(frags[i].src.as_str());
            assert(str_views(out@) =~= before.push(frags@[i as int].src@));
        }
        i = i + 1;
    }
    assert(frags@.take(frags.len() as int) =~= frags@);
    out
}

/// The sources of the roles in `roles` that have a consumer on, in list order.
pub fn active_roles<'a>(s: &Settings, roles: &'a [RoleDef]) -> (r: Vec<&'a str>)
    ensures
        str_views(r@) == active_srcs(s.effects@, roles@),
{
    let mut out: Vec<&'a str> = Vec::new();
    let mut i: usize = 0;
    while i < roles.len()
        invariant
            i <= roles.len(),
            str_views(out@) == active_srcs(s.effects@, roles@.take(i as int)),
        decreases roles.len() - i,
    {
        assert(roles@.take(i + 1).drop_last() =~= roles@.take(i as int));
        let ghost before = str_views(out@);
        if role_active(s, &roles[i]) {
            out.push(roles[i].src.as_str());
            assert(str_views(out@) =~= before.push(roles@[i as int].src@));
        }
        i = i + 1;
    }
    assert(roles@.take(roles.len() as int) =~= roles@);
    out
}

/// The main pass's fetch block: the chromatic one when that effect is on.
pub open spec fn fetch_src(m: Map<Seq<char>, bool>, cat: ShaderCatalog) -> Seq<char> {
    if effect_on(m, "chromatic_aberration"@) {
        cat.main_fetch_chromatic@
    } else {
        cat.main_fetch@
    }
}

/// The FPS HUD box block, when the HUD is on.
pub open spec fn hud_box_srcs(m: Map<Seq<char>, bool>, cat: ShaderCatalog) -> Seq<Seq<char>> {
    if effect_on(m, "fps_hud"@) {
        seq![cat.hud_box@]
    } else {
        Seq::empty()
    }
}

/// The history sampling blocks: present when a temporal effect is on, with the
/// HUD mask when the HUD is on too.
pub open spec fn history_srcs(m: Map<Seq<char>, bool>, reg: Seq<EffectDef>, cat: ShaderCatalog) -> Seq<Seq<char>> {
    if !any_of_kind_on(m, reg, EffectKind::Temporal) {
        Seq::empty()
    } else if effect_on(m, "fps_hud"@) {
        seq![cat.history@, cat.history_hud_mask@]
    } else {
        seq![cat.history@]
    }
}

/// The temporal stabilizer block, present when a temporal effect is on.
pub open spec fn stabilizer_srcs(m: Map<Seq<char>, bool>, reg: Seq<EffectDef>, cat: ShaderCatalog) -> Seq<Seq<char>> {
    if any_of_kind_on(m, reg, EffectKind::Temporal) {
        seq![cat.stabilizer@]
    } else {
        Seq::empty()
    }
}

/// The grading function: open, grading effects, frame grading effects, clamp,
/// hardware grading effects, close.
pub open spec fn grade_fn_srcs(m: Map<Seq<char>, bool>, cat: ShaderCatalog) -> Seq<Seq<char>> {
    seq![cat.grade_open@] + enabled_srcs(m, cat.grade@) + enabled_srcs(m, cat.grade_frame@) + seq![
        cat.grade_clamp@,
    ] + enabled_srcs(m, cat.grade_hardware@) + seq![cat.grade_close@]
}

/// The main function in the fixed pipeline order: UV warps, fetch, tap roles,
/// HUD box, history, spatial effects, grading, graded roles, pre-temporal and
/// temporal effects, stabilizer, noise, overlays.
pub open spec fn main_srcs(m: Map<Seq<char>, bool>, reg: Seq<EffectDef>, cat: ShaderCatalog) -> Seq<Seq<char>> {
    seq![cat.main_open@] + enabled_srcs(m, cat.uv_warp@) + seq![fetch_src(m, cat)] + active_srcs(
        m,
        cat.tap_roles@,
    ) + hud_box_srcs(m, cat) + history_srcs(m, reg, cat) + enabled_srcs(m, cat.spatial@)
        + enabled_srcs(m, cat.spatial_tail@) + seq![cat.main_grade@] + active_srcs(
        m,
        cat.graded_roles@,
    ) + enabled_srcs(m, cat.pre_temporal@) + enabled_srcs(m, cat.temporal@) + stabilizer_srcs(
        m,
        reg,
        cat,
    ) + enabled_srcs(m, cat.noise@) + enabled_srcs(m, cat.overlay@) + seq![cat.main_close@]
}

/// The whole ubershader body: the grading function, then the main function.
pub open spec fn shader_body_srcs(m: Map<Seq<char>, bool>, reg: Seq<EffectDef>, cat: ShaderCatalog) -> Seq<Seq<char>> {
    grade_fn_srcs(m, cat) + main_srcs(m, reg, cat)
}

/// Appends `part` to `out`.
fn append_part<'a>(out: &mut Vec<&'a str>, part: Vec<&'a str>)
    ensures
        str_views(final(out)@) == str_views(old(out)@) + str_views(part@),
{
    let mut part = part;
    let ghost o = out@;
    let ghost p = part@;
    out.append(&mut part);
    assert(str_views(out@) =~= str_views(o) + str_views(p));
}

/// Appends one piece to `out`.
fn push_piece<'a>(out: &mut Vec<&'a str>, piece: &'a str)
    ensures
        str_views(final(out)@) == str_views(old(out)@).push(piece@),
{
    let ghost o = out@;
    out.push(piece);
    assert(str_views(out@) =~= str_views(o).push(piece@));
}

/// The fetch block for `s`.
pub fn fetch_frag<'a>(s: &Settings, cat: &'a ShaderCatalog) -> (r: &'a str)
    ensures
        r@ == fetch_src(s.effects@, *cat),
{
    if enabled(s, "chromatic_aberration") {
        cat.main_fetch_chromatic.as_str()
    } else {
        cat.main_fetch.as_str()
    }
}

/// The HUD box block for `s`.
pub fn hud_box_frags<'a>(s: &Settings, cat: &'a ShaderCatalog) -> (r: Vec<&'a str>)
    ensures
        str_views(r@) == hud_box_srcs(s.effects@, *cat),
{
    let mut v: Vec<&'a str> = Vec::new();
    if enabled(s, "fps_hud") {
        v.push(cat.hud_box.as_str());
        assert(str_views(v@) =~= seq![cat.hud_box@]);
    } else {
        assert(str_views(v@) =~= Seq::<Seq<char>>::empty());
    }
    v
}

/// The history blocks for `s`.
pub fn history_frags<'a>(s: &Settings, reg: &[EffectDef], cat: &'a ShaderCatalog) -> (r: Vec<&'a str>)
    ensures
        str_views(r@) == history_srcs(s.effects@, reg@, *cat),
{
    let mut v: Vec<&'a str> = Vec::new();
    let temporal = temporal_enabled(s, reg);
    let hud = enabled(s, "fps_hud");
    if !temporal {
        assert(str_views(v@) =~= Seq::<Seq<char>>::empty());
    } else if hud {
        v.push(cat.history.as_str());
        v.push(cat.history_hud_mask.as_str());
        assert(str_views(v@) =~= seq![cat.history@, cat.history_hud_mask@]);
    } else {
        v.push(cat.history.as_str());
        assert(str_views(v@) =~= seq![cat.history@]);
    }
    v
}

/// The stabilizer block for `s`.
pub fn stabilizer_frags<'a>(s: &Settings, reg: &[EffectDef], cat: &'a ShaderCatalog) -> (r: Vec<&'a str>)
    ensures
        str_views(r@) == stabilizer_srcs(s.effects@, reg@, *cat),
{
    let mut v: Vec<&'a str> = Vec::new();
    if temporal_enabled(s, reg) {
        v.push(cat.stabilizer.as_str());
        assert(str_views(v@) =~= seq![cat.stabilizer@]);
    } else {
        assert(str_views(v@) =~= Seq::<Seq<char>>::empty());
    }
    v
}

/// The grading function's pieces for `s`.
pub fn grade_fn_frags<'a>(s: &Settings, cat: &'a ShaderCatalog) -> (r: Vec<&'a str>)
    ensures
        str_views(r@) == grade_fn_srcs(s.effects@, *cat),
{
    let mut v: Vec<&'a str> = Vec::new();
    push_piece(&mut v, cat.grade_open.as_str());
    append_part(&mut v, enabled_frags(s, cat.grade.as_slice()));
    append_part(&mut v, enabled_frags(s, cat.grade_frame.as_slice()));
    push_piece(&mut v, cat.grade_clamp.as_str());
    append_part(&mut v, enabled_frags(s, cat.grade_hardware.as_slice()));
    push_piece(&mut v, cat.grade_close.as_str());
    assert(str_views(v@) =~= grade_fn_srcs(s.effects@, *cat));
    v
}

/// The main function's pieces for `s`, in the fixed pipeline order.
pub fn main_frags<'a>(s: &Settings, reg: &[EffectDef], cat: &'a ShaderCatalog) -> (r: Vec<&'a str>)
    ensures
        str_views(r@) == main_srcs(s.effects@, reg@, *cat),
{
    let ghost m = s.effects@;
    let mut v: Vec<&'a str> = Vec::new();
    push_piece(&mut v, cat.main_open.as_str());
    append_part(&mut v, enabled_frags(s, cat.uv_warp.as_slice()));
    push_piece(&mut v, fetch_frag(s, cat));
    append_part(&mut v, active_roles(s, cat.tap_roles.as_slice()));
    append_part(&mut v, hud_box_frags(s, cat));
    append_part(&mut v, history_frags(s, reg, cat));
    append_part(&mut v, enabled_frags(s, cat.spatial.as_slice()));
    append_part(&mut v, enabled_frags(s, cat.spatial_tail.as_slice()));
    push_piece(&mut v, cat.main_grade.as_str());
    append_part(&mut v, active_roles(s, cat.graded_roles.as_slice()));
    append_part(&mut v, enabled_frags(s, cat.pre_temporal.as_slice()));
    append_part(&mut v, enabled_frags(s, cat.temporal.as_slice()));
    append_part(&mut v, stabilizer_frags(s, reg, cat));
    append_part(&mut v, enabled_frags(s, cat.noise.as_slice()));
    append_part(&mut v, enabled_frags(s, cat.overlay.as_slice()));
    push_piece(&mut v, cat.main_close.as_str());
    assert(str_views(v@) =~= main_srcs(m, reg@, *cat));
    v
}

/// The ubershader body for `s`: the grading function, then the main function.
pub fn shader_body_frags<'a>(s: &Settings, reg: &[EffectDef], cat: &'a ShaderCatalog) -> (r: Vec<&'a str>)
    ensures
        str_views(r@) == shader_body_srcs(s.effects@, reg@, *cat),
{
    let mut v = grade_fn_frags(s, cat);
    append_part(&mut v, main_frags(s, reg, cat));
    v
}


/// Disabled effects never reach the compiler, enabled ones always do: a
/// fragment's source is in the assembled list exactly when some fragment with
/// that source belongs to an effect that is on.
pub proof fn law_fragments_of_enabled_effects(m: Map<Seq<char>, bool>, frags: Seq<FragDef>)
    ensures
        forall|i: int| 0 <= i < frags.len() && effect_on(m, #[trigger] frags[i].name@) ==> enabled_srcs(m, frags).contains(frags[i].src@),
        forall|x: Seq<char>| #[trigger] enabled_srcs(m, frags).contains(x) ==> exists|j: int|
            0 <= j < frags.len() && effect_on(m, frags[j].name@) && frags[j].src@ == x,
    decreases frags.len(),
{
    if frags.len() > 0 {
        let p = frags.drop_last();
        law_fragments_of_enabled_effects(m, p);
        let prev = enabled_srcs(m, p);
        assert forall|i: int| 0 <= i < frags.len() && effect_on(m, #[trigger] frags[i].name@) implies enabled_srcs(
            m,
            frags,
        ).contains(frags[i].src@) by {
            if i < frags.len() - 1 {
                assert(p[i] == frags[i]);
                assert(prev.contains(p[i].src@));
                let k = choose|k: int| 0 <= k < prev.len() && prev[k] == p[i].src@;
                if effect_on(m, frags.last().name@) {
                    assert(prev.push(frags.last().src@)[k] == prev[k]);
                }
            } else {
                assert(prev.push(frags.last().src@)[prev.len() as int] == frags.last().src@);
            }
        }
        assert forall|x: Seq<char>| #[trigger] enabled_srcs(m, frags).contains(x) implies exists|j: int|
            0 <= j < frags.len() && effect_on(m, frags[j].name@) && frags[j].src@ == x by {
            let k = choose|k: int| 0 <= k < enabled_srcs(m, frags).len() && enabled_srcs(m, frags)[k] == x;
            if k < prev.len() {
                if effect_on(m, frags.last().name@) {
                    assert(prev.push(frags.last().src@)[k] == prev[k]);
                }
                assert(prev.contains(x));
                let j = choose|j: int| 0 <= j < p.len() && effect_on(m, p[j].name@) && p[j].src@ == x;
                assert(frags[j] == p[j]);
            } else {
                assert(frags[frags.len() - 1] == frags.last());
            }
        }
    }
}


/// Every fragment of `frags` whose effect is on has its source in `body`.
pub open spec fn enabled_in(m: Map<Seq<char>, bool>, frags: Seq<FragDef>, body: Seq<Seq<char>>) -> bool {
    forall|i: int| 0 <= i < frags.len() && effect_on(m, #[trigger] frags[i].name@) ==> body.contains(frags[i].src@)
}

proof fn lemma_enabled_in_part(m: Map<Seq<char>, bool>, frags: Seq<FragDef>, body: Seq<Seq<char>>)
    requires
        forall|x: Seq<char>| #[trigger] enabled_srcs(m, frags).contains(x) ==> body.contains(x),
    ensures
        enabled_in(m, frags, body),
{
    law_fragments_of_enabled_effects(m, frags);
}

/// Every enabled effect's fragment reaches the compiler: for each of the
/// catalog's effect lists, the source of every fragment whose effect is on is
/// in the assembled ubershader body.
pub proof fn law_enabled_fragments_are_compiled(m: Map<Seq<char>, bool>, reg: Seq<EffectDef>, cat: ShaderCatalog)
    ensures
        enabled_in(m, cat.grade@, shader_body_srcs(m, reg, cat)),
        enabled_in(m, cat.grade_frame@, shader_body_srcs(m, reg, cat)),
        enabled_in(m, cat.grade_hardware@, shader_body_srcs(m, reg, cat)),
        enabled_in(m, cat.uv_warp@, shader_body_srcs(m, reg, cat)),
        enabled_in(m, cat.spatial@, shader_body_srcs(m, reg, cat)),
        enabled_in(m, cat.spatial_tail@, shader_body_srcs(m, reg, cat)),
        enabled_in(m, cat.pre_temporal@, shader_body_srcs(m, reg, cat)),
        enabled_in(m, cat.temporal@, shader_body_srcs(m, reg, cat)),
        enabled_in(m, cat.noise@, shader_body_srcs(m, reg, cat)),
        enabled_in(m, cat.overlay@, shader_body_srcs(m, reg, cat)),
{
    broadcast use vstd::seq_lib::lemma_seq_concat_contains_all_elements;

    let body = shader_body_srcs(m, reg, cat);
    lemma_enabled_in_part(m, cat.grade@, body);
    lemma_enabled_in_part(m, cat.grade_frame@, body);
    lemma_enabled_in_part(m, cat.grade_hardware@, body);
    lemma_enabled_in_part(m, cat.uv_warp@, body);
    lemma_enabled_in_part(m, cat.spatial@, body);
    lemma_enabled_in_part(m, cat.spatial_tail@, body);
    lemma_enabled_in_part(m, cat.pre_temporal@, body);
    lemma_enabled_in_part(m, cat.temporal@, body);
    lemma_enabled_in_part(m, cat.noise@, body);
    lemma_enabled_in_part(m, cat.overlay@, body);
}

proof fn lemma_main_head(m: Map<Seq<char>, bool>, reg: Seq<EffectDef>, cat: ShaderCatalog)
    ensures
        ({
            let body = main_srcs(m, reg, cat);
            let u = enabled_srcs(m, cat.uv_warp@);
            &&& u.len() + 1 < body.len()
            &&& body[0] == cat.main_open@
            &&& body[u.len() as int + 1] == fetch_src(m, cat)
            &&& forall|k: int| 0 < k < u.len() + 1 ==> #[trigger] body[k] == u[k - 1]
        }),
{
    let u = enabled_srcs(m, cat.uv_warp@);
    let head = seq![cat.main_open@] + u + seq![fetch_src(m, cat)];
    let rest = active_srcs(m, cat.tap_roles@) + hud_box_srcs(m, cat) + history_srcs(m, reg, cat) + enabled_srcs(
        m,
        cat.spatial@,
    ) + enabled_srcs(m, cat.spatial_tail@) + seq![cat.main_grade@] + active_srcs(m, cat.graded_roles@)
        + enabled_srcs(m, cat.pre_temporal@) + enabled_srcs(m, cat.temporal@) + stabilizer_srcs(m, reg, cat)
        + enabled_srcs(m, cat.noise@) + enabled_srcs(m, cat.overlay@) + seq![cat.main_close@];
    let body = main_srcs(m, reg, cat);
    assert(body =~= head + rest);
    assert forall|k: int| 0 < k < u.len() + 1 implies #[trigger] body[k] == u[k - 1] by {
        assert((head + rest)[k] == head[k]);
        assert(head[k] == (seq![cat.main_open@] + u)[k]);
    }
    assert((head + rest)[0] == head[0]);
    assert((head + rest)[u.len() as int + 1] == head[u.len() as int + 1]);
}

/// `x` is the source of a fragment of `uv` whose effect is on.
pub open spec fn is_enabled_src(m: Map<Seq<char>, bool>, uv: Seq<FragDef>, x: Seq<char>) -> bool {
    exists|i: int| 0 <= i < uv.len() && effect_on(m, uv[i].name@) && uv[i].src@ == x
}

/// Positions 1 to `p - 1` of `body` hold exactly the sources of the enabled
/// fragments of `uv`: each such source is there, and nothing else is.
pub open spec fn uv_block(body: Seq<Seq<char>>, m: Map<Seq<char>, bool>, uv: Seq<FragDef>, p: int) -> bool {
    &&& forall|i: int|
        0 <= i < uv.len() && effect_on(m, #[trigger] uv[i].name@) ==> exists|k: int| 0 < k < p && body[k] == uv[i].src@
    &&& forall|k: int| 0 < k < p ==> is_enabled_src(m, uv, #[trigger] body[k])
}

proof fn lemma_uv_layout(body: Seq<Seq<char>>, open: Seq<char>, fetch: Seq<char>, m: Map<Seq<char>, bool>, uv: Seq<FragDef>)
    requires
        enabled_srcs(m, uv).len() + 1 < body.len(),
        body[0] == open,
        body[enabled_srcs(m, uv).len() as int + 1] == fetch,
        forall|k: int| 0 < k < enabled_srcs(m, uv).len() + 1 ==> #[trigger] body[k] == enabled_srcs(m, uv)[k - 1],
    ensures
        exists|p: int|
            #![trigger uv_block(body, m, uv, p)]
            {
                &&& 1 <= p < body.len()
                &&& body[0] == open
                &&& body[p] == fetch
                &&& uv_block(body, m, uv, p)
            },
{
    let u = enabled_srcs(m, uv);
    let p: int = u.len() as int + 1;
    assert(uv_block(body, m, uv, p)) by {
        law_fragments_of_enabled_effects(m, uv);
        assert forall|i: int| 0 <= i < uv.len() && effect_on(m, #[trigger] uv[i].name@) implies exists|k: int|
            0 < k < p && body[k] == uv[i].src@ by {
            assert(u.contains(uv[i].src@));
            let j = choose|j: int| 0 <= j < u.len() && u[j] == uv[i].src@;
            assert(body[j + 1] == u[j]);
        }
        assert forall|k: int| 0 < k < p implies is_enabled_src(m, uv, #[trigger] body[k]) by {
            assert(body[k] == u[k - 1]);
            assert(u.contains(u[k - 1]));
            let i = choose|i: int| 0 <= i < uv.len() && effect_on(m, uv[i].name@) && uv[i].src@ == u[k - 1];
            assert(uv[i].src@ == body[k]);
        }
    }
    assert(body[p] == fetch);
}

/// The UV warps come first in the main function: it opens with the main-open
/// block, then the sources of the enabled UV-warp fragments and nothing else,
/// then the fetch block.
pub proof fn law_uv_warps_follow_main_open(m: Map<Seq<char>, bool>, reg: Seq<EffectDef>, cat: ShaderCatalog)
    ensures
        ({
            let body = main_srcs(m, reg, cat);
            let uv = cat.uv_warp@;
            exists|p: int|
                #![trigger uv_block(body, m, uv, p)]
                {
                    &&& 1 <= p < body.len()
                    &&& body[0] == cat.main_open@
                    &&& body[p] == fetch_src(m, cat)
                    &&& uv_block(body, m, uv, p)
                }
        }),
{
    lemma_main_head(m, reg, cat);
    lemma_uv_layout(main_srcs(m, reg, cat), cat.main_open@, fetch_src(m, cat), m, cat.uv_warp@);
}

} // verus!
