//! Swapchains: how the layer asks for a swapchain it can post-process, what it
//! records of each one, when it rebuilds its post-processing resources, and
//! when it gives up on a swapchain whose submissions keep failing.
use vstd::prelude::*;

use crate::table::KeyTable;
use crate::vkdevice::QUEUE_GRAPHICS_BIT;

verus! {

pub const FORMAT_R8G8B8A8_UNORM: i32 = 37;
pub const FORMAT_R8G8B8A8_SRGB: i32 = 43;
pub const FORMAT_B8G8R8A8_UNORM: i32 = 44;
pub const FORMAT_B8G8R8A8_SRGB: i32 = 50;
pub const FORMAT_A8B8G8R8_UNORM_PACK32: i32 = 51;
pub const FORMAT_A8B8G8R8_SRGB_PACK32: i32 = 57;
pub const USAGE_TRANSFER_SRC: u32 = 0x1;
pub const USAGE_TRANSFER_DST: u32 = 0x2;
pub const USAGE_SAMPLED: u32 = 0x4;
pub const USAGE_COLOR_ATTACHMENT: u32 = 0x10;
pub const SWAPCHAIN_MUTABLE_FORMAT: u32 = 0x4;
pub const DESC_LAYOUT_PUSH_DESCRIPTOR: u32 = 0x1;
pub const SUBMIT_FAILURE_LIMIT: u32 = 4;
pub const FORMAT_FEATURE_STORAGE_IMAGE: u32 = 0x2;
pub const FORMAT_FEATURE_BLIT_SRC: u32 = 0x400;
pub const FORMAT_FEATURE_BLIT_DST: u32 = 0x800;
pub const FORMAT_FEATURE_FILTER_LINEAR: u32 = 0x1000;

/// The UNORM format that views an sRGB swap format's bytes linearly; other
/// formats are their own.
pub open spec fn unorm_of(format: i32) -> i32 {
    if format == FORMAT_B8G8R8A8_SRGB {
        FORMAT_B8G8R8A8_UNORM
    } else if format == FORMAT_R8G8B8A8_SRGB {
        FORMAT_R8G8B8A8_UNORM
    } else if format == FORMAT_A8B8G8R8_SRGB_PACK32 {
        FORMAT_A8B8G8R8_UNORM_PACK32
    } else {
        format
    }
}

/// The UNORM view format of a swap format.
pub fn fmt_unorm(format: i32) -> (r: i32)
    ensures
        r == unorm_of(format),
{
    if format == FORMAT_B8G8R8A8_SRGB {
        FORMAT_B8G8R8A8_UNORM
    } else if format == FORMAT_R8G8B8A8_SRGB {
        FORMAT_R8G8B8A8_UNORM
    } else if format == FORMAT_A8B8G8R8_SRGB_PACK32 {
        FORMAT_A8B8G8R8_UNORM_PACK32
    } else {
        format
    }
}

/// The swap image usage the layer asks for: the application's, plus what the
/// layer needs to read and write the images.
pub fn upgrade_usage(usage: u32) -> (r: u32)
    ensures
        r == usage | USAGE_COLOR_ATTACHMENT | USAGE_TRANSFER_SRC | USAGE_TRANSFER_DST | USAGE_SAMPLED,
{
    usage | USAGE_COLOR_ATTACHMENT | USAGE_TRANSFER_SRC | USAGE_TRANSFER_DST | USAGE_SAMPLED
}

/// One way of creating the swapchain.
#[derive(Clone, Copy, Debug, PartialEq, Eq, Structural)]
pub enum SwapAttempt {
    /// Upgraded usage, mutable format, viewed as the UNORM format.
    Mutable,
    /// Upgraded usage only.
    Plain,
    /// The application's own request, untouched.
    Passthrough,
}

/// What follows an attempt at creating the swapchain.
#[derive(Clone, Copy, Debug, PartialEq, Eq, Structural)]
pub enum SwapStep {
    /// Try this next.
    Try(SwapAttempt),
    /// Done: the swapchain's result is the last attempt's; `usable` says
    /// whether the layer can post-process it, viewing it as `view_format`.
    Done { view_format: i32, mutable: bool, usable: bool },
}

/// The first attempt: mutable format when the device has it and the format
/// has a UNORM twin, else the plain upgrade.
pub open spec fn first_attempt_spec(mutable_cap: bool, format: i32) -> SwapAttempt {
    if mutable_cap && unorm_of(format) != format {
        SwapAttempt::Mutable
    } else {
        SwapAttempt::Plain
    }
}

/// The step after `a` succeeded (`ok`) or failed: a failed mutable attempt
/// falls back to the plain upgrade, a failed plain one to the application's
/// request, whose result stands.
pub open spec fn next_step_spec(a: SwapAttempt, ok: bool, format: i32, original_format: i32) -> SwapStep {
    match a {
        SwapAttempt::Mutable => if ok {
            SwapStep::Done { view_format: unorm_of(format), mutable: true, usable: true }
        } else {
            SwapStep::Try(SwapAttempt::Plain)
        },
        SwapAttempt::Plain => if ok {
            SwapStep::Done { view_format: format, mutable: false, usable: true }
        } else {
            SwapStep::Try(SwapAttempt::Passthrough)
        },
        SwapAttempt::Passthrough => SwapStep::Done { view_format: original_format, mutable: false, usable: false },
    }
}

/// How far down the fallbacks an attempt is.
pub open spec fn attempt_rank(a: SwapAttempt) -> int {
    match a {
        SwapAttempt::Mutable => 0,
        SwapAttempt::Plain => 1,
        SwapAttempt::Passthrough => 2,
    }
}

/// Swapchain creation falls back step by step and always ends: a failed
/// upgraded attempt moves one step further down, the application's own
/// request ends it with its result standing and no post-processing; a
/// successful upgraded attempt ends it with post-processing, viewing the
/// images as the UNORM twin exactly when the images were made mutable, and
/// the mutable attempt is only tried when the device allows it and the format
/// has a distinct UNORM twin.
pub proof fn law_swapchain_fallbacks(a: SwapAttempt, ok: bool, format: i32, original_format: i32, mutable_cap: bool)
    ensures
        first_attempt_spec(mutable_cap, format) == SwapAttempt::Mutable ==> mutable_cap && unorm_of(format) != format,
        first_attempt_spec(mutable_cap, format) != SwapAttempt::Passthrough,
        a != SwapAttempt::Passthrough && !ok ==> (next_step_spec(a, ok, format, original_format) matches SwapStep::Try(b)
            && attempt_rank(b) == attempt_rank(a) + 1),
        a == SwapAttempt::Passthrough ==> next_step_spec(a, ok, format, original_format) == (SwapStep::Done {
            view_format: original_format,
            mutable: false,
            usable: false,
        }),
        a != SwapAttempt::Passthrough && ok ==> (next_step_spec(a, ok, format, original_format) matches SwapStep::Done {
            view_format,
            mutable,
            usable,
        } && usable && (mutable <==> a == SwapAttempt::Mutable) && view_format == (if mutable {
            unorm_of(format)
        } else {
            format
        })),
{
}

/// The first way to try creating a swapchain of `format`.
pub fn first_swap_attempt(mutable_cap: bool, format: i32) -> (r: SwapAttempt)
    ensures
        r == first_attempt_spec(mutable_cap, format),
{
    if mutable_cap && fmt_unorm(format) != format {
        SwapAttempt::Mutable
    } else {
        SwapAttempt::Plain
    }
}

/// What to do after attempt `a` returned (`ok` is success).
pub fn next_swap_step(a: SwapAttempt, ok: bool, format: i32, original_format: i32) -> (r: SwapStep)
    ensures
        r == next_step_spec(a, ok, format, original_format),
{
    match a {
        SwapAttempt::Mutable => if ok {
            SwapStep::Done { view_format: fmt_unorm(format), mutable: true, usable: true }
        } else {
            SwapStep::Try(SwapAttempt::Plain)
        },
        SwapAttempt::Plain => if ok {
            SwapStep::Done { view_format: format, mutable: false, usable: true }
        } else {
            SwapStep::Try(SwapAttempt::Passthrough)
        },
        SwapAttempt::Passthrough => SwapStep::Done { view_format: original_format, mutable: false, usable: false },
    }
}

/// `base` followed by the items of `extra` it lacks, each once, in order.
pub open spec fn append_new(base: Seq<u32>, extra: Seq<u32>) -> Seq<u32>
    decreases extra.len(),
{
    if extra.len() == 0 {
        base
    } else {
        let prev = append_new(base, extra.drop_last());
        if prev.contains(extra.last()) {
            prev
        } else {
            prev.push(extra.last())
        }
    }
}

/// The queue families that share the swap images: the application's device
/// queues, then the swapchain's own families, then the async compute family.
pub open spec fn concurrent_spec(app: Seq<u32>, ci: Seq<u32>, async_family: Option<u32>) -> Seq<u32> {
    append_new(
        append_new(app, ci),
        match async_family {
            Some(f) => seq![f],
            None => Seq::empty(),
        },
    )
}

fn push_new(out: &mut Vec<u32>, f: u32)
    ensures
        final(out)@ == (if old(out)@.contains(f) {
            old(out)@
        } else {
            old(out)@.push(f)
        }),
{
    let mut i: usize = 0;
    while i < out.len()
        invariant
            i <= out.len(),
            forall|k: int| 0 <= k < i ==> #[trigger] out@[k] != f,
        decreases out.len() - i,
    {
        if out[i] == f {
            return;
        }
        i = i + 1;
    }
    out.push(f);
}

proof fn lemma_append_new(base: Seq<u32>, extra: Seq<u32>)
    ensures
        forall|x: u32| #[trigger] append_new(base, extra).contains(x) <==> base.contains(x) || extra.contains(x),
        base.no_duplicates() ==> append_new(base, extra).no_duplicates(),
        append_new(base, extra).len() >= base.len(),
        append_new(base, extra).take(base.len() as int) == base,
    decreases extra.len(),
{
    if extra.len() > 0 {
        let e = extra.drop_last();
        let prev = append_new(base, e);
        let v = extra.last();
        lemma_append_new(base, e);
        assert(extra == e.push(v));
        assert forall|x: u32| e.contains(x) || x == v <==> #[trigger] extra.contains(x) by {
            if e.contains(x) {
                let k = choose|k: int| 0 <= k < e.len() && e[k] == x;
                assert(extra[k] == x);
            }
            if x == v {
                assert(extra[extra.len() - 1] == x);
            }
            if extra.contains(x) {
                let k = choose|k: int| 0 <= k < extra.len() && extra[k] == x;
                if k < e.len() {
                    assert(e[k] == x);
                }
            }
        }
        if !prev.contains(v) {
            assert forall|x: u32| #[trigger] prev.push(v).contains(x) <==> prev.contains(x) || x == v by {
                if prev.contains(x) {
                    let k = choose|k: int| 0 <= k < prev.len() && prev[k] == x;
                    assert(prev.push(v)[k] == x);
                }
                if x == v {
                    assert(prev.push(v)[prev.len() as int] == x);
                }
                if prev.push(v).contains(x) {
                    let k = choose|k: int| 0 <= k < prev.push(v).len() && prev.push(v)[k] == x;
                    if k < prev.len() {
                        assert(prev[k] == x);
                    }
                }
            }
            assert(prev.push(v).take(base.len() as int) =~= prev.take(base.len() as int));
            if base.no_duplicates() {
                assert forall|i: int, j: int| 0 <= i < prev.push(v).len() && 0 <= j < prev.push(v).len() && i != j implies
                    prev.push(v)[i] != prev.push(v)[j] by {
                    if i < prev.len() && j < prev.len() {
                    } else if i < prev.len() {
                        assert(prev.contains(prev[i]));
                    } else {
                        assert(prev.contains(prev[j]));
                    }
                }
            }
        }
    } else {
        assert(base.take(base.len() as int) =~= base);
    }
}

/// The swap images are shared by every family that needs them, each listed
/// once: the application's device queues first and in their order, then the
/// swapchain's own families and the async compute family, and nothing else.
pub proof fn law_shared_families(app: Seq<u32>, ci: Seq<u32>, async_family: Option<u32>)
    ensures
        forall|x: u32| #[trigger] concurrent_spec(app, ci, async_family).contains(x) <==> app.contains(x) || ci.contains(x)
            || async_family == Some(x),
        app.no_duplicates() ==> concurrent_spec(app, ci, async_family).no_duplicates(),
        concurrent_spec(app, ci, async_family).take(app.len() as int) == app,
{
    let mid = append_new(app, ci);
    let tail = match async_family {
        Some(f) => seq![f],
        None => Seq::<u32>::empty(),
    };
    lemma_append_new(app, ci);
    lemma_append_new(mid, tail);
    assert forall|x: u32| #[trigger] tail.contains(x) <==> async_family == Some(x) by {
        match async_family {
            Some(f) => {
                if x == f {
                    assert(tail[0] == x);
                }
            },
            None => {},
        }
    }
    let r = append_new(mid, tail);
    assert(r.take(mid.len() as int) == mid);
    assert(r.take(app.len() as int) =~= mid.take(app.len() as int));
}

/// The families that share the swap images.
pub fn concurrent_families(app: &Vec<u32>, ci_families: &Vec<u32>, async_family: Option<u32>) -> (r: Vec<u32>)
    ensures
        r@ == concurrent_spec(app@, ci_families@, async_family),
{
    let mut out: Vec<u32> = Vec::new();
    let mut j: usize = 0;
    while j < app.len()
        invariant
            j <= app.len(),
            out@ == app@.take(j as int),
        decreases app.len() - j,
    {
        out.push(app[j]);
        assert(app@.take(j + 1) =~= app@.take(j as int).push(app@[j as int]));
        j = j + 1;
    }
    assert(app@.take(app.len() as int) =~= app@);
    assert(ci_families@.take(0) =~= Seq::<u32>::empty());
    let mut i: usize = 0;
    while i < ci_families.len()
        invariant
            i <= ci_families.len(),
            out@ == append_new(app@, ci_families@.take(i as int)),
        decreases ci_families.len() - i,
    {
        assert(ci_families@.take(i + 1).drop_last() =~= ci_families@.take(i as int));
        push_new(&mut out, ci_families[i]);
        i = i + 1;
    }
    assert(ci_families@.take(ci_families.len() as int) =~= ci_families@);
    let ghost mid = out@;
    match async_family {
        Some(f) => {
            push_new(&mut out, f);
            assert(seq![f].drop_last() =~= Seq::<u32>::empty());
            assert(append_new(mid, Seq::<u32>::empty()) == mid);
        },
        None => {
            assert(append_new(mid, Seq::<u32>::empty()) == mid);
        },
    }
    out
}

/// The families for concurrent sharing of the swap images: only when the
/// device uses an async compute family and two or more families are involved.
pub fn upgrade_swapchain_sharing(async_family: Option<u32>, families: &Vec<u32>) -> (r: Option<Vec<u32>>)
    ensures
        match r {
            Some(v) => async_family is Some && families.len() >= 2 && v@ == families@,
            None => !(async_family is Some && families.len() >= 2),
        },
{
    if async_family.is_some() && families.len() >= 2 {
        Some(families.clone())
    } else {
        None
    }
}

/// How the post-processing pass runs.
#[derive(Clone, Copy, Debug, PartialEq, Eq, Structural)]
pub enum PostFxMode {
    Fragment,
    Compute,
}

/// The pass for a swapchain: compute when the settings ask for it, the device
/// writes storage images without a format, and the view format supports
/// storage images; else fragment.
pub fn choose_mode(want_compute: bool, cap_ok: bool, fmt_ok: bool) -> (r: (PostFxMode, Option<String>))
    ensures
        r.0 == (if want_compute && cap_ok && fmt_ok {
            PostFxMode::Compute
        } else {
            PostFxMode::Fragment
        }),
        match r.1 {
            Some(m) => want_compute && cap_ok && !fmt_ok
                && m@ == "compute path not applied: format lacks STORAGE_IMAGE feature, falling back to fragment"@,
            None => !(want_compute && cap_ok && !fmt_ok),
        },
{
    if want_compute && cap_ok && fmt_ok {
        (PostFxMode::Compute, None)
    } else if want_compute && cap_ok {
        (
            PostFxMode::Fragment,
            Some("compute path not applied: format lacks STORAGE_IMAGE feature, falling back to fragment".to_owned()),
        )
    } else {
        (PostFxMode::Fragment, None)
    }
}

/// The family that runs the post-processing dispatch: the async compute family
/// for the compute pass when there is one, else the present family.
pub fn pick_dispatch_family(mode: PostFxMode, async_family: Option<u32>, present_family: u32) -> (r: u32)
    ensures
        r == (match (mode, async_family) {
            (PostFxMode::Compute, Some(f)) => f,
            _ => present_family,
        }),
{
    match (mode, async_family) {
        (PostFxMode::Compute, Some(f)) => f,
        _ => present_family,
    }
}

/// The families that share the layer's own images: none when submission and
/// dispatch use one family, else both.
pub fn internal_image_families(submit_family: u32, dispatch_family: u32) -> (r: Vec<u32>)
    ensures
        r@ == (if submit_family == dispatch_family {
            Seq::<u32>::empty()
        } else {
            seq![submit_family, dispatch_family]
        }),
{
    if submit_family == dispatch_family {
        Vec::new()
    } else {
        let mut v = Vec::new();
        v.push(submit_family);
        v.push(dispatch_family);
        assert(v@ =~= seq![submit_family, dispatch_family]);
        v
    }
}

/// Whether an upscaled staging image is needed: the pass runs at another size
/// than the swapchain and the swap format is sRGB.
pub fn need_upscaled_image_for_extent(extent: (u32, u32), fx_extent: (u32, u32), image_format: i32) -> (r: bool)
    ensures
        r == (!(extent.0 == fx_extent.0 && extent.1 == fx_extent.1) && unorm_of(image_format) != image_format),
{
    let extent_matches = extent.0 == fx_extent.0 && extent.1 == fx_extent.1;
    !extent_matches && fmt_unorm(image_format) != image_format
}

/// Whether the pass can write a format with optimal-tiling `features` as a
/// storage image.
pub fn storage_format_ok(features: u32) -> (r: bool)
    ensures
        r == (features & FORMAT_FEATURE_STORAGE_IMAGE != 0),
{
    features & FORMAT_FEATURE_STORAGE_IMAGE != 0
}

/// How the processed image is scaled onto the swap image, from the format's
/// optimal-tiling `features` and the flags of the submit family (`None` when
/// the device does not list it): whether blits are possible (the format blits
/// both ways and the family has graphics), and whether the blit filters
/// linearly (else nearest).
pub fn blit_choice(features: u32, submit_family_flags: Option<u32>) -> (r: (bool, bool))
    ensures
        r.0 == (features & FORMAT_FEATURE_BLIT_DST != 0 && features & FORMAT_FEATURE_BLIT_SRC != 0
            && match submit_family_flags {
            Some(f) => f & QUEUE_GRAPHICS_BIT != 0,
            None => false,
        }),
        r.1 == (features & FORMAT_FEATURE_FILTER_LINEAR != 0),
{
    let fmt_blit = features & FORMAT_FEATURE_BLIT_DST != 0 && features & FORMAT_FEATURE_BLIT_SRC != 0;
    let q_blit = match submit_family_flags {
        Some(f) => f & QUEUE_GRAPHICS_BIT != 0,
        None => false,
    };
    (fmt_blit && q_blit, features & FORMAT_FEATURE_FILTER_LINEAR != 0)
}

/// What the layer keeps of a swapchain's post-processing resources.
#[derive(Clone, Copy, Debug, PartialEq, Eq, Structural)]
pub struct FxInfo {
    pub mode: PostFxMode,
    pub needs_history: bool,
    pub submit_family: u32,
    pub dispatch_family: u32,
    /// The shader generation its pipeline was built from.
    pub gen: i32,
    /// Whether the history image was cleared since it was made.
    pub history_init: bool,
}

/// What the layer keeps of a swapchain.
#[derive(Clone, Copy, Debug)]
pub struct SwapRecord {
    pub device: u64,
    pub image_format: i32,
    pub view_format: i32,
    pub extent: (u32, u32),
    pub fx_extent: (u32, u32),
    /// The resolution scale it was built for, by the bits of its `f32`.
    pub res_scale_bits: u32,
    pub mutable_format: bool,
    pub fx: Option<FxInfo>,
    pub submit_failures: u32,
    pub disabled: bool,
}

/// A record after one more failed submission, and whether this failure is the
/// one that disables post-processing on the swapchain.
pub open spec fn failed(rec: SwapRecord) -> (SwapRecord, bool) {
    let n: u32 = if rec.submit_failures == u32::MAX {
        u32::MAX
    } else {
        (rec.submit_failures + 1) as u32
    };
    if n >= SUBMIT_FAILURE_LIMIT && !rec.disabled {
        (SwapRecord { submit_failures: n, disabled: true, ..rec }, true)
    } else {
        (SwapRecord { submit_failures: n, ..rec }, false)
    }
}

/// A record after a successful submission: the failure count restarts.
pub open spec fn succeeded(rec: SwapRecord) -> SwapRecord {
    SwapRecord { submit_failures: 0, ..rec }
}

/// A record after `n` failed submissions in a row.
pub open spec fn after_failures(rec: SwapRecord, n: nat) -> SwapRecord
    decreases n,
{
    if n == 0 {
        rec
    } else {
        failed(after_failures(rec, (n - 1) as nat)).0
    }
}

/// Whether the layer post-processes swapchain `sc`.
pub fn swap_has(t: &KeyTable<SwapRecord>, sc: u64) -> (r: bool)
    ensures
        r == t@.contains_key(sc),
{
    t.contains(sc)
}

/// Records swapchain `sc`.
pub fn swap_put(t: &mut KeyTable<SwapRecord>, sc: u64, rec: SwapRecord)
    ensures
        final(t)@ == old(t)@.insert(sc, rec),
{
    t.put(sc, rec);
}

/// Forgets swapchain `sc`, returning its record.
pub fn swap_del(t: &mut KeyTable<SwapRecord>, sc: u64) -> (r: Option<SwapRecord>)
    ensures
        r == (if old(t)@.contains_key(sc) {
            Some(old(t)@[sc])
        } else {
            None
        }),
        final(t)@ == old(t)@.remove(sc),
{
    t.remove(sc)
}

/// Counts a failed submission on `sc`; true when this failure disables
/// post-processing there.
pub fn swap_record_failure(t: &mut KeyTable<SwapRecord>, sc: u64) -> (r: bool)
    ensures
        old(t)@.contains_key(sc) ==> final(t)@ == old(t)@.insert(sc, failed(old(t)@[sc]).0) && r == failed(
            old(t)@[sc],
        ).1,
        !old(t)@.contains_key(sc) ==> final(t)@ == old(t)@ && !r,
{
    match t.get(sc) {
        Some(rec) => {
            let n = rec.submit_failures.saturating_add(1);
            if n >= SUBMIT_FAILURE_LIMIT && !rec.disabled {
                t.put(sc, SwapRecord { submit_failures: n, disabled: true, ..rec });
                true
            } else {
                t.put(sc, SwapRecord { submit_failures: n, ..rec });
                false
            }
        },
        None => false,
    }
}

/// Counts a successful submission on `sc`: its failure count restarts.
pub fn swap_record_success(t: &mut KeyTable<SwapRecord>, sc: u64)
    ensures
        old(t)@.contains_key(sc) ==> final(t)@ == old(t)@.insert(sc, succeeded(old(t)@[sc])),
        !old(t)@.contains_key(sc) ==> final(t)@ == old(t)@,
{
    match t.get(sc) {
        Some(rec) => t.put(sc, SwapRecord { submit_failures: 0, ..rec }),
        None => {},
    }
}

/// Whether post-processing was given up on `sc`.
pub fn swap_is_disabled(t: &KeyTable<SwapRecord>, sc: u64) -> (r: bool)
    ensures
        r == (t@.contains_key(sc) && t@[sc].disabled),
{
    match t.get(sc) {
        Some(rec) => rec.disabled,
        None => false,
    }
}

proof fn lemma_failure_count(rec: SwapRecord, n: nat)
    requires
        rec.submit_failures == 0,
        !rec.disabled,
    ensures
        after_failures(rec, n).submit_failures == (if n <= u32::MAX { n } else { u32::MAX as nat }),
        after_failures(rec, n).disabled == (n >= SUBMIT_FAILURE_LIMIT),
    decreases n,
{
    if n > 0 {
        lemma_failure_count(rec, (n - 1) as nat);
    }
}

/// A swapchain whose submissions fail is given up on after exactly
/// `SUBMIT_FAILURE_LIMIT` consecutive failures, and not before.
pub proof fn law_disabled_after_failure_limit(rec: SwapRecord, n: nat)
    requires
        rec.submit_failures == 0,
        !rec.disabled,
    ensures
        after_failures(rec, n).disabled <==> n >= SUBMIT_FAILURE_LIMIT,
{
    lemma_failure_count(rec, n);
}

/// Giving up is reported once: the failure that disables the swapchain is the
/// `SUBMIT_FAILURE_LIMIT`-th in a row, and no other failure reports it.
pub proof fn law_disable_reported_once(rec: SwapRecord, n: nat)
    requires
        rec.submit_failures == 0,
        !rec.disabled,
    ensures
        failed(after_failures(rec, n)).1 <==> n + 1 == SUBMIT_FAILURE_LIMIT,
{
    lemma_failure_count(rec, n);
}

/// A successful submission restarts the count: on a swapchain not given up
/// on, it again takes `SUBMIT_FAILURE_LIMIT` consecutive failures to disable it.
pub proof fn law_success_restarts_count(rec: SwapRecord, n: nat)
    requires
        !rec.disabled,
    ensures
        after_failures(succeeded(rec), n).disabled <==> n >= SUBMIT_FAILURE_LIMIT,
{
    lemma_failure_count(succeeded(rec), n);
}

/// Once given up on, a swapchain stays so through further failures and successes.
pub proof fn law_disabled_is_sticky(rec: SwapRecord)
    requires
        rec.disabled,
    ensures
        failed(rec).0.disabled,
        !failed(rec).1,
        succeeded(rec).disabled,
{
}


/// A new swapchain's record: nothing built yet, no failures.
pub fn new_swap_record(
    device: u64,
    image_format: i32,
    view_format: i32,
    extent: (u32, u32),
    fx_extent: (u32, u32),
    res_scale_bits: u32,
    mutable_format: bool,
) -> (r: SwapRecord)
    ensures
        r.device == device,
        r.image_format == image_format,
        r.view_format == view_format,
        r.extent == extent,
        r.fx_extent == fx_extent,
        r.res_scale_bits == res_scale_bits,
        r.mutable_format == mutable_format,
        r.fx is None,
        r.submit_failures == 0,
        !r.disabled,
{
    SwapRecord {
        device,
        image_format,
        view_format,
        extent,
        fx_extent,
        res_scale_bits,
        mutable_format,
        fx: None,
        submit_failures: 0,
        disabled: false,
    }
}

/// Forgets every swapchain of device `dev`, returning their records.
pub fn swap_del_for_device(t: &mut KeyTable<SwapRecord>, dev: u64) -> (r: Vec<(u64, SwapRecord)>)
    ensures
        forall|k: u64| #[trigger] final(t)@.contains_key(k) <==> old(t)@.contains_key(k) && old(t)@[k].device != dev,
        forall|k: u64| #[trigger] final(t)@.contains_key(k) ==> final(t)@[k] == old(t)@[k],
        forall|j: int|
            0 <= j < r@.len() ==> old(t)@.contains_key(#[trigger] r@[j].0) && old(t)@[r@[j].0] == r@[j].1
                && r@[j].1.device == dev,
        forall|k: u64|
            #[trigger] old(t)@.contains_key(k) && old(t)@[k].device == dev ==> exists|j: int|
                0 <= j < r@.len() && r@[j].0 == k,
{
    let ghost t0 = t@;
    let ks = t.keys();
    let mut out: Vec<(u64, SwapRecord)> = Vec::new();
    let mut i: usize = 0;
    while i < ks.len()
        invariant
            i <= ks.len(),
            forall|k: u64| t0.contains_key(k) <==> #[trigger] ks@.contains(k),
            forall|k: u64| #[trigger] t@.contains_key(k) ==> t0.contains_key(k) && t@[k] == t0[k],
            forall|k: u64| #[trigger] t0.contains_key(k) && t0[k].device != dev ==> t@.contains_key(k),
            forall|k: u64| #[trigger] t0.contains_key(k) && !t@.contains_key(k) ==> exists|j: int| 0 <= j < out@.len() && out@[j].0 == k,
            forall|j: int| 0 <= j < i ==> (#[trigger] t0.contains_key(ks@[j]) && t0[ks@[j]].device == dev) ==> !t@.contains_key(ks@[j]),
            forall|j: int|
                0 <= j < out@.len() ==> t0.contains_key(#[trigger] out@[j].0) && t0[out@[j].0] == out@[j].1
                    && out@[j].1.device == dev,
        decreases ks.len() - i,
    {
        let k = ks[i];
        match t.get(k) {
            Some(rec) => {
                assert(t@.contains_key(k));
                assert(t0.contains_key(k) && t0[k] == rec);
                if rec.device == dev {
                    let ghost before = out@;
                    t.remove(k);
                    out.push((k, rec));
                    assert(out@[out@.len() - 1].0 == k);
                    assert forall|j: int| 0 <= j < out@.len() implies t0.contains_key(#[trigger] out@[j].0)
                        && t0[out@[j].0] == out@[j].1 && out@[j].1.device == dev by {
                        if j < before.len() {
                            assert(out@[j] == before[j]);
                        }
                    }
                    assert forall|k2: u64| #[trigger] t0.contains_key(k2) && !t@.contains_key(k2) implies exists|j: int|
                        0 <= j < out@.len() && out@[j].0 == k2 by {
                        if k2 != k {
                            let j = choose|j: int| 0 <= j < before.len() && before[j].0 == k2;
                            assert(out@[j] == before[j]);
                        } else {
                            assert(out@[out@.len() - 1].0 == k2);
                        }
                    }
                }
            },
            None => {},
        }
        i = i + 1;
    }
    assert forall|k: u64| #[trigger] t@.contains_key(k) <==> t0.contains_key(k) && t0[k].device != dev by {
        if t0.contains_key(k) && t0[k].device == dev {
            assert(ks@.contains(k));
            let j = choose|j: int| 0 <= j < ks@.len() && ks@[j] == k;
            assert(t0.contains_key(ks@[j]));
        }
    }
    out
}

/// What a swapchain waiting for shaders needs to be registered later.
#[derive(Clone, Copy, Debug, PartialEq, Eq, Structural)]
pub struct PendingInfo {
    pub device: u64,
    pub format: i32,
    pub width: u32,
    pub height: u32,
}

/// Queues swapchain `sc` for a later registration.
pub fn pending_put(t: &mut KeyTable<PendingInfo>, sc: u64, info: PendingInfo)
    ensures
        final(t)@ == old(t)@.insert(sc, info),
{
    t.put(sc, info);
}

/// Drops swapchain `sc` from the queue.
pub fn pending_del(t: &mut KeyTable<PendingInfo>, sc: u64)
    ensures
        final(t)@ == old(t)@.remove(sc),
{
    t.remove(sc);
}

/// The queued swapchains to register now: all of them, taken out of the
/// queue, once shaders are ready; none before.
pub fn retry_pending_registrations(t: &mut KeyTable<PendingInfo>, spv_ready: bool) -> (r: Vec<(u64, PendingInfo)>)
    ensures
        spv_ready ==> crate::table::table_map(r@) == old(t)@ && crate::table::keys_unique(r@) && final(t)@
            == Map::<u64, PendingInfo>::empty(),
        !spv_ready ==> r@.len() == 0 && final(t)@ == old(t)@,
{
    if spv_ready {
        t.drain()
    } else {
        Vec::new()
    }
}

/// Whether post-processing resources wait for shaders: none built yet.
pub fn shaders_pending(generation: i32) -> (r: bool)
    ensures
        r == (generation == 0),
{
    generation == 0
}

/// What to do about a swapchain's post-processing resources before a frame.
#[derive(Clone, Copy, Debug, PartialEq, Eq, Structural)]
pub enum FxAction {
    /// They are built.
    Ready,
    /// No shaders yet: present the frame unmodified.
    Wait,
    /// Build them now.
    Build,
}

/// Resources are built lazily, on the first frame after shaders exist.
pub fn ensure_fx(has_fx: bool, generation: i32) -> (r: FxAction)
    ensures
        r == (if has_fx {
            FxAction::Ready
        } else if generation == 0 {
            FxAction::Wait
        } else {
            FxAction::Build
        }),
{
    if has_fx {
        FxAction::Ready
    } else if shaders_pending(generation) {
        FxAction::Wait
    } else {
        FxAction::Build
    }
}

/// Whether a pipeline was built from older shaders than the current ones.
pub fn pipeline_gen_stale(st_gen: i32, cur_gen: i32) -> (r: bool)
    ensures
        r == (st_gen != cur_gen),
{
    st_gen != cur_gen
}

/// Whether a SPIR-V module is there.
pub fn spv_is_ready(spv: &Vec<u32>) -> (r: bool)
    ensures
        r == (spv.len() > 0),
{
    spv.len() > 0
}

/// Whether the module a pass needs is there.
pub fn spv_ready_for_mode(mode: PostFxMode, frag: &Vec<u32>, comp: &Vec<u32>) -> (r: bool)
    ensures
        r == (match mode {
            PostFxMode::Compute => comp.len() > 0,
            PostFxMode::Fragment => frag.len() > 0,
        }),
{
    match mode {
        PostFxMode::Compute => spv_is_ready(comp),
        PostFxMode::Fragment => spv_is_ready(frag),
    }
}

/// A module for building, or the error line when there is none yet.
pub fn spv_or_fail(spv: Vec<u32>, label: &str) -> (r: Result<Vec<u32>, String>)
    ensures
        spv.len() > 0 ==> r == Ok::<Vec<u32>, String>(spv),
        spv.len() == 0 ==> (r matches Err(m) && m@ == "no spirv available for "@ + label@
            + ", postfx skipped until shaders ready"@),
{
    if spv.len() == 0 {
        let mut m = "no spirv available for ".to_owned();
        m.append(label);
        m.append(", postfx skipped until shaders ready");
        Err(m)
    } else {
        Ok(spv)
    }
}

/// Whether resources differ from what the settings now want.
pub fn fx_mismatches(fx: &FxInfo, want_mode: PostFxMode, want_history: bool) -> (r: bool)
    ensures
        r == (fx.mode != want_mode || fx.needs_history != want_history),
{
    fx.mode != want_mode || fx.needs_history != want_history
}

/// Whether a settings change needs the resources rebuilt from scratch: another
/// resolution scale, or built resources of another pass or history need.
pub fn needs_full_rebuild(rec: &SwapRecord, want_scale_bits: u32, want_mode: PostFxMode, want_history: bool) -> (r: bool)
    ensures
        r == (rec.res_scale_bits != want_scale_bits || match rec.fx {
            Some(fx) => fx.mode != want_mode || fx.needs_history != want_history,
            None => false,
        }),
{
    rec.res_scale_bits != want_scale_bits || match rec.fx {
        Some(fx) => fx_mismatches(&fx, want_mode, want_history),
        None => false,
    }
}

/// What a settings or shader change does to a swapchain's resources.
#[derive(Clone, Copy, Debug, PartialEq, Eq, Structural)]
pub enum RebuildAction {
    /// Drop them; they are built anew at the new scale.
    Full,
    /// Rebuild the pipeline alone from the new shaders.
    Pipeline,
    /// Nothing.
    Keep,
}

/// The rebuild a swapchain needs before a frame.
pub fn check_rebuild_pipeline(
    rec: &SwapRecord,
    want_scale_bits: u32,
    want_mode: PostFxMode,
    want_history: bool,
    cur_gen: i32,
    frag: &Vec<u32>,
    comp: &Vec<u32>,
) -> (r: RebuildAction)
    ensures
        r == (if rec.res_scale_bits != want_scale_bits || match rec.fx {
            Some(fx) => fx.mode != want_mode || fx.needs_history != want_history,
            None => false,
        } {
            RebuildAction::Full
        } else {
            match rec.fx {
                Some(fx) => if fx.gen != cur_gen && match fx.mode {
                    PostFxMode::Compute => comp.len() > 0,
                    PostFxMode::Fragment => frag.len() > 0,
                } {
                    RebuildAction::Pipeline
                } else {
                    RebuildAction::Keep
                },
                None => RebuildAction::Keep,
            }
        }),
{
    if needs_full_rebuild(rec, want_scale_bits, want_mode, want_history) {
        RebuildAction::Full
    } else {
        match rec.fx {
            Some(fx) => if pipeline_gen_stale(fx.gen, cur_gen) && spv_ready_for_mode(fx.mode, frag, comp) {
                RebuildAction::Pipeline
            } else {
                RebuildAction::Keep
            },
            None => RebuildAction::Keep,
        }
    }
}

/// A full rebuild: the new scale and size are recorded and the resources dropped.
pub fn apply_full_rebuild(rec: &mut SwapRecord, want_scale_bits: u32, fx_extent: (u32, u32))
    ensures
        *final(rec) == (SwapRecord { res_scale_bits: want_scale_bits, fx_extent, fx: None, ..*old(rec) }),
{
    rec.res_scale_bits = want_scale_bits;
    rec.fx_extent = fx_extent;
    rec.fx = None;
}

/// Whether submission resources must be made anew: none yet, or made for
/// another queue family.
pub fn submit_res_needs_replacement(cur: Option<u32>, family: u32) -> (r: bool)
    ensures
        r == (match cur {
            Some(f) => f != family,
            None => true,
        }),
{
    match cur {
        Some(f) => f != family,
        None => true,
    }
}

/// Which queue the post-processing work is submitted to.
#[derive(Clone, Copy, Debug, PartialEq, Eq, Structural)]
pub enum QueueChoice {
    Async,
    Present,
}

/// The async compute queue when the submit family is the async compute family
/// and its queue was fetched, else the present queue.
pub fn pick_submit_queue(async_family: Option<u32>, has_async_queue: bool, submit_family: u32) -> (r: QueueChoice)
    ensures
        r == (if async_family == Some(submit_family) && has_async_queue {
            QueueChoice::Async
        } else {
            QueueChoice::Present
        }),
{
    match async_family {
        Some(f) => if f == submit_family && has_async_queue {
            QueueChoice::Async
        } else {
            QueueChoice::Present
        },
        None => QueueChoice::Present,
    }
}

/// The workgroup counts that cover an extent: each side rounded up to whole
/// workgroups.
pub fn dispatch_dims(width: u32, height: u32, wg_x: u32, wg_y: u32) -> (r: (u32, u32))
    requires
        1 <= width + wg_x <= u32::MAX,
        1 <= height + wg_y <= u32::MAX,
    ensures
        r.0 == (width + wg_x - 1) / (if wg_x == 0 { 1 } else { wg_x as int }),
        r.1 == (height + wg_y - 1) / (if wg_y == 0 { 1 } else { wg_y as int }),
{
    let dx = if wg_x == 0 { 1 } else { wg_x };
    let dy = if wg_y == 0 { 1 } else { wg_y };
    ((width + wg_x - 1) / dx, (height + wg_y - 1) / dy)
}

/// How the processed image reaches the swap image.
#[derive(Clone, Copy, Debug, PartialEq, Eq, Structural)]
pub enum SwapWrite {
    /// Same size: a plain copy of this extent.
    Copy(u32, u32),
    /// Another size and the format blits: scale through the staging image.
    Blit,
    /// Another size and no blit support: copy the overlap, unscaled.
    ClampedCopy(u32, u32),
}

/// How a frame of `src` size is written to a swap image of `dst` size.
pub fn write_to_swap(src: (u32, u32), dst: (u32, u32), can_blit: bool) -> (r: SwapWrite)
    ensures
        r == (if src == dst {
            SwapWrite::Copy(dst.0, dst.1)
        } else if can_blit {
            SwapWrite::Blit
        } else {
            SwapWrite::ClampedCopy(
                if src.0 < dst.0 { src.0 } else { dst.0 },
                if src.1 < dst.1 { src.1 } else { dst.1 },
            )
        }),
{
    if src.0 == dst.0 && src.1 == dst.1 {
        SwapWrite::Copy(dst.0, dst.1)
    } else if can_blit {
        SwapWrite::Blit
    } else {
        SwapWrite::ClampedCopy(
            if src.0 < dst.0 { src.0 } else { dst.0 },
            if src.1 < dst.1 { src.1 } else { dst.1 },
        )
    }
}

/// A memory type allowed by `bits` whose properties include `flags`.
pub open spec fn mem_type_ok(types: Seq<u32>, bits: u32, flags: u32, i: int) -> bool {
    0 <= i < types.len() && bits & (1u32 << (i as u32)) != 0 && types[i] & flags == flags
}

/// The first suitable memory type, 0 when none is.
pub fn find_mem_type(types: &Vec<u32>, bits: u32, flags: u32) -> (r: u32)
    requires
        types.len() <= 32,
    ensures
        (exists|i: int| mem_type_ok(types@, bits, flags, i)) ==> mem_type_ok(types@, bits, flags, r as int)
            && forall|j: int| 0 <= j < r ==> !mem_type_ok(types@, bits, flags, j),
        !(exists|i: int| mem_type_ok(types@, bits, flags, i)) ==> r == 0,
{
    let mut i: usize = 0;
    while i < types.len()
        invariant
            i <= types.len(),
            types.len() <= 32,
            forall|j: int| 0 <= j < i ==> !mem_type_ok(types@, bits, flags, j),
        decreases types.len() - i,
    {
        let sh = i as u32;
        if bits & (1u32 << sh) != 0 && types[i] & flags == flags {
            assert(mem_type_ok(types@, bits, flags, i as int));
            return sh;
        }
        i = i + 1;
    }
    assert forall|k: int| !mem_type_ok(types@, bits, flags, k) by {
        if 0 <= k < types.len() {
            assert(!mem_type_ok(types@, bits, flags, k));
        }
    }
    0
}

/// The descriptor set layout flags: push descriptors when used.
pub fn desc_layout_flags(push_desc: bool) -> (r: u32)
    ensures
        r == (if push_desc { DESC_LAYOUT_PUSH_DESCRIPTOR } else { 0 }),
{
    if push_desc {
        DESC_LAYOUT_PUSH_DESCRIPTOR
    } else {
        0
    }
}

/// Whether a present needs post-processing: some effect is on and one of the
/// presented swapchains is recorded.
pub fn present_has_fx(any_enabled: bool, swapchains: &Vec<u64>, t: &KeyTable<SwapRecord>) -> (r: bool)
    ensures
        r == (any_enabled && exists|i: int| 0 <= i < swapchains.len() && t@.contains_key(#[trigger] swapchains@[i])),
{
    if !any_enabled {
        return false;
    }
    let mut i: usize = 0;
    while i < swapchains.len()
        invariant
            any_enabled,
            i <= swapchains.len(),
            forall|j: int| 0 <= j < i ==> !t@.contains_key(#[trigger] swapchains@[j]),
        decreases swapchains.len() - i,
    {
        if swap_has(t, swapchains[i]) {
            assert(t@.contains_key(swapchains@[i as int]));
            return true;
        }
        i = i + 1;
    }
    false
}


/// Whether this frame must clear the history image first (the first frame
/// after the resources were made); marks it cleared.
pub fn take_history_init(fx: &mut FxInfo) -> (r: bool)
    ensures
        r == !old(fx).history_init,
        *final(fx) == (FxInfo { history_init: true, ..*old(fx) }),
{
    let need = !fx.history_init;
    fx.history_init = true;
    need
}

/// Whether a presented swapchain gets post-processed: recorded and not given up on.
pub fn swap_wants_postfx(t: &KeyTable<SwapRecord>, sc: u64) -> (r: bool)
    ensures
        r == (t@.contains_key(sc) && !t@[sc].disabled),
{
    match t.get(sc) {
        Some(rec) => !rec.disabled,
        None => false,
    }
}

/// The warning when a swapchain is given up on.
pub const DISABLED_MSG: &'static str = "postfx submit failed repeatedly, postfx disabled on this swapchain until it is recreated";

/// Accounts for a post-processing submission on `sc`: on success the present
/// waits on the pass's semaphore `done` and the failure count restarts; on
/// failure the present keeps the waits it had, the failure is counted, and the
/// warning is returned when this failure gives up on the swapchain.
pub fn submit_outcome(t: &mut KeyTable<SwapRecord>, sc: u64, ok: bool, waits_in: Vec<u64>, done: u64) -> (r: (
    Vec<u64>,
    Option<&'static str>,
))
    ensures
        ok ==> r.0@ == seq![done] && r.1 is None && (old(t)@.contains_key(sc) ==> final(t)@ == old(t)@.insert(
            sc,
            succeeded(old(t)@[sc]),
        )) && (!old(t)@.contains_key(sc) ==> final(t)@ == old(t)@),
        !ok ==> r.0@ == waits_in@ && (old(t)@.contains_key(sc) ==> final(t)@ == old(t)@.insert(
            sc,
            failed(old(t)@[sc]).0,
        ) && (r.1 is Some <==> failed(old(t)@[sc]).1)) && (!old(t)@.contains_key(sc) ==> final(t)@ == old(t)@
            && r.1 is None),
        r.1 matches Some(m) ==> m@ == DISABLED_MSG@,
{
    if ok {
        swap_record_success(t, sc);
        let mut v = Vec::new();
        v.push(done);
        assert(v@ =~= seq![done]);
        (v, None)
    } else {
        let now_disabled = swap_record_failure(t, sc);
        (waits_in, if now_disabled {
            Some(DISABLED_MSG)
        } else {
            None
        })
    }
}

} // verus!
