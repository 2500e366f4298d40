//! Shader state: the SPIR-V modules in use and their generation, the compute
//! workgroup size the device allows, and the source text handed to the
//! compiler.
use vstd::prelude::*;

use crate::config::COMPUTE_X_DEFAULT;
use crate::config::COMPUTE_Y_DEFAULT;
use crate::text::decimal_spec;
use crate::text::decimal_string;

verus! {

pub const SUBGROUP_EXT_TYPES_DEFINE: &'static str = "#define BONES_HAS_SUBGROUP_EXT_TYPES\n";
pub const SUBGROUP_UNIFORM_FLOW_DEFINE: &'static str = "#define BONES_HAS_SUBGROUP_UNIFORM_FLOW\n";

/// The modules one build produced and the workgroup size the compute module
/// was compiled for; an empty module is one that failed to compile.
pub struct ShaderArtifacts {
    pub frag: Vec<u32>,
    pub comp: Vec<u32>,
    pub compute_x: u32,
    pub compute_y: u32,
}

/// The shader state shared by the layer's threads.
pub struct ShaderStore {
    pub frag_spv: Option<Vec<u32>>,
    pub comp_spv: Option<Vec<u32>>,
    pub wg: (u32, u32),
    pub vert_spv: Option<Vec<u32>>,
    /// The device limits: largest workgroup per axis and most invocations.
    pub wg_limits: (u32, u32, u32),
    /// Subgroup extended types, subgroup uniform control flow.
    pub subgroup_caps: (bool, bool),
    /// How many builds were stored, wrapping; 0 before the first.
    pub generation: i32,
}

impl ShaderStore {
    /// No modules, the default workgroup, no device limits yet.
    pub fn new() -> (r: ShaderStore)
        ensures
            r.frag_spv is None,
            r.comp_spv is None,
            r.wg == (COMPUTE_X_DEFAULT, COMPUTE_Y_DEFAULT),
            r.vert_spv is None,
            r.wg_limits == (u32::MAX, u32::MAX, u32::MAX),
            r.subgroup_caps == (false, false),
            r.generation == 0,
    {
        ShaderStore {
            frag_spv: None,
            comp_spv: None,
            wg: (COMPUTE_X_DEFAULT, COMPUTE_Y_DEFAULT),
            vert_spv: None,
            wg_limits: (u32::MAX, u32::MAX, u32::MAX),
            subgroup_caps: (false, false),
            generation: 0,
        }
    }
}

/// The index of the first `c` in `s` from `i` on, or the length.
pub open spec fn index_from(s: Seq<char>, c: char, i: int) -> int
    decreases s.len() - i,
{
    if i >= s.len() {
        s.len() as int
    } else if s[i] == c {
        i
    } else {
        index_from(s, c, i + 1)
    }
}

/// The first line of `s` (without its newline) and the rest after it.
pub open spec fn first_line_spec(s: Seq<char>) -> (Seq<char>, Seq<char>) {
    let nl = index_from(s, '\n', 0);
    (s.subrange(0, nl), if nl + 1 <= s.len() {
        s.subrange(nl + 1, s.len() as int)
    } else {
        Seq::empty()
    })
}

proof fn lemma_index_from_bounds(s: Seq<char>, c: char, i: int)
    requires
        0 <= i <= s.len(),
    ensures
        i <= index_from(s, c, i) <= s.len(),
    decreases s.len() - i,
{
    if i < s.len() && s[i] != c {
        lemma_index_from_bounds(s, c, i + 1);
    }
}

/// The first line of `src` and the text after it.
pub fn split_first_line(src: &str) -> (r: (&str, &str))
    ensures
        (r.0@, r.1@) == first_line_spec(src@),
{
    let n = src.unicode_len();
    let mut i: usize = 0;
    proof {
        lemma_index_from_bounds(src@, '\n', 0);
    }
    while i < n && src.get_char(i) != '\n'
        invariant
            n == src@.len(),
            i <= n,
            index_from(src@, '\n', 0) == index_from(src@, '\n', i as int),
        decreases n - i,
    {
        i = i + 1;
    }
    let head = src.substring_char(0, i);
    if i < n {
        (head, src.substring_char(i + 1, n))
    } else {
        let tail = src.substring_char(n, n);
        assert(tail@ =~= Seq::<char>::empty());
        (head, tail)
    }
}

/// The device's workgroup limits.
pub fn read_wg_limits(st: &ShaderStore) -> (r: (u32, u32, u32))
    ensures
        r == st.wg_limits,
{
    st.wg_limits
}

/// The workgroup used when the requested one exceeds the invocation limit.
pub fn fallback_wg() -> (r: (u32, u32))
    ensures
        r == (COMPUTE_X_DEFAULT, COMPUTE_Y_DEFAULT),
{
    (COMPUTE_X_DEFAULT, COMPUTE_Y_DEFAULT)
}

/// `v` kept within `1..=hi` (with `hi` at least 1).
pub open spec fn clamp_axis(v: u32, hi: u32) -> u32 {
    let h: u32 = if hi < 1 { 1 } else { hi };
    if v < 1 {
        1
    } else if v > h {
        h
    } else {
        v
    }
}

/// Each requested axis kept within `1..=max` of its axis.
pub fn clamp_wg_axes(req_x: u32, req_y: u32, max_x: u32, max_y: u32) -> (r: (u32, u32))
    ensures
        r == (clamp_axis(req_x, max_x), clamp_axis(req_y, max_y)),
{
    let hx = if max_x < 1 { 1 } else { max_x };
    let hy = if max_y < 1 { 1 } else { max_y };
    let x = if req_x < 1 {
        1
    } else if req_x > hx {
        hx
    } else {
        req_x
    };
    let y = if req_y < 1 {
        1
    } else if req_y > hy {
        hy
    } else {
        req_y
    };
    (x, y)
}

/// Whether an `x` by `y` workgroup has no more invocations than the limit
/// (taken as at least 1).
pub open spec fn within_limit(x: u32, y: u32, max_inv: u32) -> bool {
    x * y <= (if max_inv < 1 { 1 } else { max_inv })
}

/// Whether an `x` by `y` workgroup fits the invocation limit.
pub fn wg_within_invocation_limit(x: u32, y: u32, max_inv: u32) -> (r: bool)
    ensures
        r == within_limit(x, y, max_inv),
{
    let lim: u64 = if max_inv < 1 { 1 } else { max_inv as u64 };
    assert((x as u64) * (y as u64) <= u64::MAX) by (nonlinear_arith);
    (x as u64) * (y as u64) <= lim
}

/// The warning for a workgroup over the invocation limit.
pub open spec fn wg_fallback_msg(x: u32, y: u32, max_inv: u32) -> Seq<char> {
    "compute workgroup "@ + decimal_spec(x as nat) + "x"@ + decimal_spec(y as nat) + " exceeds device max invocations "@
        + decimal_spec(max_inv as nat) + ", falling back to "@ + decimal_spec(COMPUTE_X_DEFAULT as nat) + "x"@
        + decimal_spec(COMPUTE_Y_DEFAULT as nat)
}

/// The warning line for a workgroup over the invocation limit.
pub fn log_wg_fallback(x: u32, y: u32, max_inv: u32) -> (r: String)
    ensures
        r@ == wg_fallback_msg(x, y, max_inv),
{
    let mut m = "compute workgroup ".to_owned();
    m.append(decimal_string(x).as_str());
    m.append("x");
    m.append(decimal_string(y).as_str());
    m.append(" exceeds device max invocations ");
    m.append(decimal_string(max_inv).as_str());
    m.append(", falling back to ");
    m.append(decimal_string(COMPUTE_X_DEFAULT).as_str());
    m.append("x");
    m.append(decimal_string(COMPUTE_Y_DEFAULT).as_str());
    m
}

/// The warning when a workgroup exceeds the limit, else nothing.
pub fn maybe_log_wg_fallback(x: u32, y: u32, max_inv: u32) -> (r: Option<String>)
    ensures
        match r {
            Some(m) => !within_limit(x, y, max_inv) && m@ == wg_fallback_msg(x, y, max_inv),
            None => within_limit(x, y, max_inv),
        },
{
    if wg_within_invocation_limit(x, y, max_inv) {
        None
    } else {
        Some(log_wg_fallback(x, y, max_inv))
    }
}

/// The workgroup itself when it fits the limit, else the fallback.
pub fn pick_wg(x: u32, y: u32, max_inv: u32) -> (r: (u32, u32))
    ensures
        r == (if within_limit(x, y, max_inv) {
            (x, y)
        } else {
            (COMPUTE_X_DEFAULT, COMPUTE_Y_DEFAULT)
        }),
{
    if wg_within_invocation_limit(x, y, max_inv) {
        (x, y)
    } else {
        fallback_wg()
    }
}

/// The workgroup for a requested size under limits `(max_x, max_y, max_inv)`:
/// each axis clamped to its limit, then the fallback when the product still
/// exceeds the invocation limit.
pub open spec fn effective_wg_spec(req_x: u32, req_y: u32, lim: (u32, u32, u32)) -> (u32, u32) {
    let cx = clamp_axis(req_x, lim.0);
    let cy = clamp_axis(req_y, lim.1);
    if within_limit(cx, cy, lim.2) {
        (cx, cy)
    } else {
        (COMPUTE_X_DEFAULT, COMPUTE_Y_DEFAULT)
    }
}

/// The workgroup the compute shader is built with for a requested size.
pub fn effective_workgroup(st: &ShaderStore, req_x: u32, req_y: u32) -> (r: (u32, u32))
    ensures
        r == effective_wg_spec(req_x, req_y, st.wg_limits),
{
    let (max_x, max_y, max_inv) = read_wg_limits(st);
    let (cx, cy) = clamp_wg_axes(req_x, req_y, max_x, max_y);
    pick_wg(cx, cy, max_inv)
}

/// The smaller of `a` and `b`.
pub open spec fn min_u32(a: u32, b: u32) -> u32 {
    if a < b {
        a
    } else {
        b
    }
}

/// A device's limits (each taken as at least 1) narrow the limits in force:
/// with several devices, the smallest of each wins.
pub fn set_wg_limits(st: &mut ShaderStore, max_x: u32, max_y: u32, max_inv: u32)
    ensures
        final(st).wg_limits == (
            min_u32(old(st).wg_limits.0, if max_x < 1 { 1 } else { max_x }),
            min_u32(old(st).wg_limits.1, if max_y < 1 { 1 } else { max_y }),
            min_u32(old(st).wg_limits.2, if max_inv < 1 { 1 } else { max_inv }),
        ),
        final(st).frag_spv == old(st).frag_spv,
        final(st).comp_spv == old(st).comp_spv,
        final(st).wg == old(st).wg,
        final(st).vert_spv == old(st).vert_spv,
        final(st).subgroup_caps == old(st).subgroup_caps,
        final(st).generation == old(st).generation,
{
    let (cx, cy, ci) = st.wg_limits;
    let mx = if max_x < 1 { 1 } else { max_x };
    let my = if max_y < 1 { 1 } else { max_y };
    let mi = if max_inv < 1 { 1 } else { max_inv };
    st.wg_limits = (if cx < mx { cx } else { mx }, if cy < my { cy } else { my }, if ci < mi { ci } else { mi });
}

/// Records the subgroup capabilities the shaders may use.
pub fn set_subgroup_caps(st: &mut ShaderStore, ext_types: bool, uniform_flow: bool)
    ensures
        final(st).subgroup_caps == (ext_types, uniform_flow),
        final(st).wg_limits == old(st).wg_limits,
        final(st).generation == old(st).generation,
{
    st.subgroup_caps = (ext_types, uniform_flow);
}

/// The subgroup capabilities in force.
pub fn current_subgroup_caps(st: &ShaderStore) -> (r: (bool, bool))
    ensures
        r == st.subgroup_caps,
{
    st.subgroup_caps
}

/// The preprocessor lines that announce the subgroup capabilities.
pub open spec fn subgroup_block_spec(ext_types: bool, uniform_flow: bool) -> Seq<char> {
    (if ext_types {
        SUBGROUP_EXT_TYPES_DEFINE@
    } else {
        Seq::empty()
    }) + (if uniform_flow {
        SUBGROUP_UNIFORM_FLOW_DEFINE@
    } else {
        Seq::empty()
    })
}

/// The preprocessor lines for the subgroup capabilities.
pub fn subgroup_define_block(ext_types: bool, uniform_flow: bool) -> (r: String)
    ensures
        r@ == subgroup_block_spec(ext_types, uniform_flow),
{
    let mut out = String::new();
    assert(out@ =~= Seq::<char>::empty());
    if ext_types {
        out.append(SUBGROUP_EXT_TYPES_DEFINE);
    }
    let ghost mid = out@;
    if uniform_flow {
        out.append(SUBGROUP_UNIFORM_FLOW_DEFINE);
    }
    assert(out@ =~= subgroup_block_spec(ext_types, uniform_flow));
    out
}

/// The fragment shader source: the version line, the subgroup lines, then
/// the rest of the ubershader.
pub open spec fn frag_source_spec(uber: Seq<char>, caps: (bool, bool)) -> Seq<char> {
    first_line_spec(uber).0 + "\n"@ + subgroup_block_spec(caps.0, caps.1) + first_line_spec(uber).1
}

/// The compute shader source: the version line, the compute path and
/// workgroup size, the subgroup lines, then the rest of the ubershader.
pub open spec fn comp_source_spec(uber: Seq<char>, caps: (bool, bool), wg_x: u32, wg_y: u32) -> Seq<char> {
    first_line_spec(uber).0 + "\n#define COMPUTE_PATH\n#define LOCAL_SIZE_X "@ + decimal_spec(wg_x as nat)
        + "\n#define LOCAL_SIZE_Y "@ + decimal_spec(wg_y as nat) + "\n"@ + subgroup_block_spec(caps.0, caps.1)
        + first_line_spec(uber).1
}

/// The fragment shader source for the ubershader `uber`.
pub fn assemble_frag_source(st: &ShaderStore, uber: &str) -> (r: String)
    ensures
        r@ == frag_source_spec(uber@, st.subgroup_caps),
{
    let (ver, rest) = split_first_line(uber);
    let (ext, uni) = current_subgroup_caps(st);
    let mut out = ver.to_owned();
    out.append("\n");
    out.append(subgroup_define_block(ext, uni).as_str());
    out.append(rest);
    out
}

/// The compute shader source for the ubershader `uber` and a workgroup size.
pub fn assemble_comp_source(st: &ShaderStore, uber: &str, wg_x: u32, wg_y: u32) -> (r: String)
    ensures
        r@ == comp_source_spec(uber@, st.subgroup_caps, wg_x, wg_y),
{
    let (ver, rest) = split_first_line(uber);
    let (ext, uni) = current_subgroup_caps(st);
    let mut out = ver.to_owned();
    out.append("\n#define COMPUTE_PATH\n#define LOCAL_SIZE_X ");
    out.append(decimal_string(wg_x).as_str());
    out.append("\n#define LOCAL_SIZE_Y ");
    out.append(decimal_string(wg_y).as_str());
    out.append("\n");
    out.append(subgroup_define_block(ext, uni).as_str());
    out.append(rest);
    out
}

/// The concatenation of source pieces.
pub open spec fn concat_spec(pieces: Seq<Seq<char>>) -> Seq<char>
    decreases pieces.len(),
{
    if pieces.len() == 0 {
        Seq::empty()
    } else {
        concat_spec(pieces.drop_last()) + pieces.last()
    }
}

/// The pieces joined into one text.
pub fn concat_pieces(pieces: &Vec<&str>) -> (r: String)
    ensures
        r@ == concat_spec(pieces@.map_values(|p: &str| p@)),
{
    let ghost ps = pieces@.map_values(|p: &str| p@);
    let mut out = String::new();
    let mut i: usize = 0;
    assert(ps.take(0) =~= Seq::<Seq<char>>::empty());
    assert(out@ =~= Seq::<char>::empty());
    while i < pieces.len()
        invariant
            i <= pieces.len(),
            ps == pieces@.map_values(|p: &str| p@),
            out@ == concat_spec(ps.take(i as int)),
        decreases pieces.len() - i,
    {
        assert(ps.take(i + 1).drop_last() =~= ps.take(i as int));
        assert(ps.take(i + 1).last() == pieces@[i as int]@);
        out.append(pieces[i]);
        i = i + 1;
    }
    assert(ps.take(pieces.len() as int) =~= ps);
    out
}

/// The cached vertex shader module.
pub fn cached_vert_spirv(st: &ShaderStore) -> (r: Option<Vec<u32>>)
    ensures
        match (r, st.vert_spv) {
            (Some(a), Some(b)) => a@ == b@,
            (None, None) => true,
            _ => false,
        },
{
    match &st.vert_spv {
        Some(v) => Some(v.clone()),
        None => None,
    }
}

/// Caches the vertex shader module.
pub fn store_vert_spirv(st: &mut ShaderStore, v: Vec<u32>)
    ensures
        final(st).vert_spv == Some(v),
        final(st).frag_spv == old(st).frag_spv,
        final(st).comp_spv == old(st).comp_spv,
        final(st).generation == old(st).generation,
{
    st.vert_spv = Some(v);
}

/// Puts a module in its slot.
pub fn store_spv(slot: &mut Option<Vec<u32>>, spv: Vec<u32>)
    ensures
        *final(slot) == Some(spv),
{
    *slot = Some(spv);
}

/// Records the workgroup size of the compute module in use.
pub fn store_wg(st: &mut ShaderStore, x: u32, y: u32)
    ensures
        final(st).wg == (x, y),
        final(st).frag_spv == old(st).frag_spv,
        final(st).comp_spv == old(st).comp_spv,
        final(st).generation == old(st).generation,
{
    st.wg = (x, y);
}

/// Installs a build: its modules and workgroup size, and a new generation.
pub fn store_shaders(st: &mut ShaderStore, a: ShaderArtifacts)
    ensures
        final(st).frag_spv == Some(a.frag),
        final(st).comp_spv == Some(a.comp),
        final(st).wg == (a.compute_x, a.compute_y),
        final(st).generation == old(st).generation.wrapping_add(1),
        final(st).vert_spv == old(st).vert_spv,
        final(st).wg_limits == old(st).wg_limits,
        final(st).subgroup_caps == old(st).subgroup_caps,
{
    store_spv(&mut st.frag_spv, a.frag);
    store_spv(&mut st.comp_spv, a.comp);
    st.wg = (a.compute_x, a.compute_y);
    st.generation = st.generation.wrapping_add(1);
}

/// The module in a slot, empty when there is none.
pub fn read_spv(slot: &Option<Vec<u32>>) -> (r: Vec<u32>)
    ensures
        r@ == (match slot {
            Some(v) => v@,
            None => Seq::<u32>::empty(),
        }),
{
    match slot {
        Some(v) => v.clone(),
        None => Vec::new(),
    }
}

/// The fragment module in use, empty when there is none.
pub fn current_frag_spv(st: &ShaderStore) -> (r: Vec<u32>)
    ensures
        r@ == (match st.frag_spv {
            Some(v) => v@,
            None => Seq::<u32>::empty(),
        }),
{
    read_spv(&st.frag_spv)
}

/// The compute module in use, empty when there is none.
pub fn current_comp_spv(st: &ShaderStore) -> (r: Vec<u32>)
    ensures
        r@ == (match st.comp_spv {
            Some(v) => v@,
            None => Seq::<u32>::empty(),
        }),
{
    read_spv(&st.comp_spv)
}

/// The workgroup size of the compute module in use.
pub fn current_wg(st: &ShaderStore) -> (r: (u32, u32))
    ensures
        r == st.wg,
{
    st.wg
}

/// Whether the compute module is built at all: only when the settings ask
/// for the compute path.
pub fn maybe_compile_comp(compute: bool) -> (r: bool)
    ensures
        r == compute,
{
    compute
}

/// Whether a reload failed: both modules empty while some effect is on.
pub fn reload_is_broken(a: &ShaderArtifacts, any_enabled: bool) -> (r: bool)
    ensures
        r == (a.frag.len() == 0 && a.comp.len() == 0 && any_enabled),
{
    a.frag.len() == 0 && a.comp.len() == 0 && any_enabled
}

/// Installs a reload build unless it is broken: when no module compiled while
/// effects are on, the previous working modules, workgroup and generation are
/// kept and the result is false.
pub fn apply_reload(st: &mut ShaderStore, a: ShaderArtifacts, any_enabled: bool) -> (r: bool)
    ensures
        r == !(a.frag@.len() == 0 && a.comp@.len() == 0 && any_enabled),
        !r ==> *final(st) == *old(st),
        r ==> final(st).frag_spv == Some(a.frag) && final(st).comp_spv == Some(a.comp)
            && final(st).wg == (a.compute_x, a.compute_y)
            && final(st).generation == old(st).generation.wrapping_add(1),
        final(st).vert_spv == old(st).vert_spv,
        final(st).wg_limits == old(st).wg_limits,
        final(st).subgroup_caps == old(st).subgroup_caps,
{
    if reload_is_broken(&a, any_enabled) {
        false
    } else {
        store_shaders(st, a);
        true
    }
}

/// The workgroup in force never exceeds the device limits: each axis within
/// its limit (the fallback aside) and the whole within the invocation limit,
/// or the fallback size.
pub proof fn law_workgroup_within_limits(req_x: u32, req_y: u32, lim: (u32, u32, u32))
    ensures
        ({
            let r = effective_wg_spec(req_x, req_y, lim);
            ||| (1 <= r.0 && 1 <= r.1 && r.0 <= (if lim.0 < 1 { 1 } else { lim.0 }) && r.1 <= (if lim.1 < 1 {
                1
            } else {
                lim.1
            }) && within_limit(r.0, r.1, lim.2))
            ||| r == (COMPUTE_X_DEFAULT, COMPUTE_Y_DEFAULT)
        }),
{
}

} // verus!
