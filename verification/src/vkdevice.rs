//! Device creation: which Vulkan fast paths the layer turns on for a device,
//! the extensions and queues it adds to the application's request, and the
//! log lines that say so.
use vstd::prelude::*;

use crate::config::Settings;
use crate::env::opt_str;
use crate::text::str_eq;
use crate::text::views;

verus! {

pub const EXT_DYN_RENDER: &'static str = "VK_KHR_dynamic_rendering";
pub const EXT_PUSH_DESC: &'static str = "VK_KHR_push_descriptor";
pub const EXT_MUTABLE_FMT: &'static str = "VK_KHR_swapchain_mutable_format";
pub const EXT_SYNCHRONIZATION2: &'static str = "VK_KHR_synchronization2";
pub const DEP_STORAGE_WRITE: &'static str = "shaderStorageImageWriteWithoutFormat";
pub const DEP_ASYNC_QUEUE: &'static str = "dedicated async compute queue family";
pub const QUEUE_GRAPHICS_BIT: u32 = 1;
pub const QUEUE_COMPUTE_BIT: u32 = 2;

/// A queue family as the device reports it: its `VkQueueFlags` bits and its
/// queue count.
#[derive(Clone, Copy, Debug, PartialEq, Eq, Structural)]
pub struct QueueFamilyInfo {
    pub flags: u32,
    pub count: u32,
}

/// What the physical device offers, as queried before device creation.
pub struct DeviceQuery {
    /// The names of the device extensions it supports.
    pub supported_exts: Vec<String>,
    /// `dynamicRendering` of `VkPhysicalDeviceDynamicRenderingFeatures`.
    pub dynren_feature: bool,
    /// `synchronization2` of `VkPhysicalDeviceSynchronization2Features`.
    pub sync2_feature: bool,
    /// `shaderStorageImageWriteWithoutFormat` of the core features.
    pub storage_write_feature: bool,
    pub max_wg_x: u32,
    pub max_wg_y: u32,
    pub max_wg_invocations: u32,
    pub queue_families: Vec<QueueFamilyInfo>,
}

/// The application's device request, as far as the layer reads it.
pub struct DeviceRequest {
    pub extensions: Vec<String>,
    /// The family index of each `VkDeviceQueueCreateInfo`, in order.
    pub queue_families: Vec<u32>,
}

/// The fast paths in use on a device and its compute limits.
#[derive(Clone, Copy, Debug, PartialEq, Eq, Structural)]
pub struct DeviceCaps {
    pub dynren: bool,
    pub pushdesc: bool,
    pub mutable_fmt: bool,
    pub storage_image_write_without_fmt: bool,
    pub sync2: bool,
    pub async_compute_family: Option<u32>,
    pub max_wg_x: u32,
    pub max_wg_y: u32,
    pub max_wg_invocations: u32,
}

/// How loud a log line is.
#[derive(Clone, Copy, Debug, PartialEq, Eq, Structural)]
pub enum MsgLevel {
    Warn,
    Info,
}

/// A log line with its level.
pub open spec fn msg_view(m: (MsgLevel, String)) -> (MsgLevel, Seq<char>) {
    (m.0, m.1@)
}

/// The views of a list of log lines.
pub open spec fn msg_views(v: Seq<(MsgLevel, String)>) -> Seq<(MsgLevel, Seq<char>)> {
    v.map_values(|m: (MsgLevel, String)| msg_view(m))
}

/// The view of an optional log line.
pub open spec fn opt_msg(m: Option<(MsgLevel, String)>) -> Option<(MsgLevel, Seq<char>)> {
    match m {
        Some(x) => Some(msg_view(x)),
        None => None,
    }
}

/// How the layer rewrites a device request.
pub struct DevicePlan {
    pub caps: DeviceCaps,
    /// The extensions to enable: the application's, then the chosen ones.
    pub extensions: Vec<String>,
    /// The queue families to create queues in: the application's, then the
    /// async compute family when one is used.
    pub queue_families: Vec<u32>,
    /// Whether `shaderStorageImageWriteWithoutFormat` is switched on in the
    /// enabled features (otherwise the application's value stays).
    pub enable_storage_write: bool,
    /// The log lines, in order: warnings for requested paths the device
    /// lacks, notes for those in use.
    pub messages: Vec<(MsgLevel, String)>,
}

/// `name` is in `list`.
pub open spec fn in_list(list: Seq<Seq<char>>, name: Seq<char>) -> bool {
    list.contains(name)
}

/// Whether `name` is among `list`.
pub fn ext_supported(list: &Vec<String>, name: &str) -> (r: bool)
    ensures
        r == in_list(views(list@), name@),
{
    let mut i: usize = 0;
    while i < list.len()
        invariant
            i <= list.len(),
            forall|k: int| 0 <= k < i ==> #[trigger] list@[k]@ != name@,
        decreases list.len() - i,
    {
        if str_eq(list[i].as_str(), name) {
            assert(views(list@)[i as int] == name@);
            return true;
        }
        i = i + 1;
    }
    assert forall|k: int| 0 <= k < views(list@).len() implies #[trigger] views(list@)[k] != name@ by {
        assert(views(list@)[k] == list@[k]@);
    }
    false
}

/// The log line for a fast path: a warning when it was requested and the
/// device lacks it, an info note when it is in use, nothing when not requested.
#[verifier::opaque]
pub open spec fn opt_message(requested: bool, available: bool, label: Seq<char>, dep: Seq<char>) -> Option<(MsgLevel, Seq<char>)> {
    if requested && !available {
        Some((MsgLevel::Warn, "optimization not applied: "@ + label + " requires "@ + dep))
    } else if requested && available {
        Some((MsgLevel::Info, "optimization "@ + label + " active via "@ + dep))
    } else {
        None
    }
}

/// Whether a fast path is used (requested and available), with its log line
/// and that line's level.
pub fn log_opt(requested: bool, available: bool, label: &str, dep: &str) -> (r: (bool, Option<(MsgLevel, String)>))
    ensures
        r.0 == (requested && available),
        opt_msg(r.1) == opt_message(requested, available, label@, dep@),
        r.1 matches Some(m) ==> (m.0 == MsgLevel::Warn <==> requested && !available),
        r.1 is None <==> !requested,
{
    reveal(opt_message);
    let chosen = requested && available;
    if requested && !available {
        let mut m = "optimization not applied: ".to_owned();
        m.append(label);
        m.append(" requires ");
        m.append(dep);
        (chosen, Some((MsgLevel::Warn, m)))
    } else if requested && available {
        let mut m = "optimization ".to_owned();
        m.append(label);
        m.append(" active via ");
        m.append(dep);
        (chosen, Some((MsgLevel::Info, m)))
    } else {
        (chosen, None)
    }
}

/// A family with compute and without graphics that has queues.
pub open spec fn compute_only(p: QueueFamilyInfo) -> bool {
    p.flags & QUEUE_COMPUTE_BIT != 0 && p.flags & QUEUE_GRAPHICS_BIT == 0 && p.count > 0
}

/// Whether a family is a dedicated compute family.
pub fn family_is_compute_only(p: &QueueFamilyInfo) -> (r: bool)
    ensures
        r == compute_only(*p),
{
    p.flags & QUEUE_COMPUTE_BIT != 0 && p.flags & QUEUE_GRAPHICS_BIT == 0 && p.count > 0
}

/// Whether the application creates queues in family `idx`.
pub fn family_used_by_app(families: &Vec<u32>, idx: u32) -> (r: bool)
    ensures
        r == families@.contains(idx),
{
    let mut i: usize = 0;
    while i < families.len()
        invariant
            i <= families.len(),
            forall|k: int| 0 <= k < i ==> #[trigger] families@[k] != idx,
        decreases families.len() - i,
    {
        if families[i] == idx {
            return true;
        }
        i = i + 1;
    }
    false
}

/// A family the layer may take for async compute: dedicated compute, unused by
/// the application.
pub open spec fn async_candidate(props: Seq<QueueFamilyInfo>, app: Seq<u32>, i: int) -> bool {
    compute_only(props[i]) && !app.contains(i as u32)
}

/// The first family from index `i` on that is usable for async compute.
pub open spec fn first_async_from(props: Seq<QueueFamilyInfo>, app: Seq<u32>, i: int) -> Option<u32>
    decreases props.len() - i,
{
    if i < 0 || i >= props.len() {
        None
    } else if async_candidate(props, app, i) {
        Some(i as u32)
    } else {
        first_async_from(props, app, i + 1)
    }
}

/// The first family usable for async compute.
pub open spec fn first_async(props: Seq<QueueFamilyInfo>, app: Seq<u32>) -> Option<u32> {
    first_async_from(props, app, 0)
}

/// The first family usable for async compute.
pub fn find_async_compute_family(props: &Vec<QueueFamilyInfo>, app_families: &Vec<u32>) -> (r: Option<u32>)
    requires
        props.len() <= u32::MAX,
    ensures
        r == first_async(props@, app_families@),
{
    let mut i: usize = 0;
    while i < props.len()
        invariant
            i <= props.len(),
            props.len() <= u32::MAX,
            first_async(props@, app_families@) == first_async_from(props@, app_families@, i as int),
        decreases props.len() - i,
    {
        if family_is_compute_only(&props[i]) && !family_used_by_app(app_families, i as u32) {
            return Some(i as u32);
        }
        i = i + 1;
    }
    None
}

/// Appends `name` when `chosen`.
pub fn add_if_chosen(chosen: bool, name: &str, exts: &mut Vec<String>)
    ensures
        views(final(exts)@) == (if chosen {
            views(old(exts)@).push(name@)
        } else {
            views(old(exts)@)
        }),
{
    let ghost before = exts@;
    if chosen {
        exts.push(name.to_owned());
        assert(views(exts@) =~= views(before).push(name@));
    }
}

/// The fast paths a device gets: each one requested in the settings and
/// available on the device (the compute path needs
/// `shaderStorageImageWriteWithoutFormat`; async compute needs the compute
/// path, a dedicated compute family the application leaves unused, and both
/// settings).
pub open spec fn planned_caps(s: Settings, q: DeviceQuery, async_first: Option<u32>) -> DeviceCaps {
    let exts = views(q.supported_exts@);
    let dynren = s.opt_dynren && (in_list(exts, EXT_DYN_RENDER@) && q.dynren_feature);
    let pushdesc = s.opt_pushdesc && in_list(exts, EXT_PUSH_DESC@);
    let mutable = s.opt_mutable_fmt && in_list(exts, EXT_MUTABLE_FMT@);
    let storage = s.compute && q.storage_write_feature;
    let sync2 = s.opt_sync2 && (in_list(exts, EXT_SYNCHRONIZATION2@) && q.sync2_feature);
    let use_async = (s.opt_async_compute && s.compute) && (async_first is Some && storage);
    DeviceCaps {
        dynren,
        pushdesc,
        mutable_fmt: mutable,
        storage_image_write_without_fmt: storage,
        sync2,
        async_compute_family: if use_async {
            async_first
        } else {
            None
        },
        max_wg_x: q.max_wg_x,
        max_wg_y: q.max_wg_y,
        max_wg_invocations: q.max_wg_invocations,
    }
}

/// The extensions of a plan: the application's, then each chosen fast path's.
pub open spec fn planned_exts(app: Seq<Seq<char>>, c: DeviceCaps) -> Seq<Seq<char>> {
    let a = if c.dynren {
        app.push(EXT_DYN_RENDER@)
    } else {
        app
    };
    let b = if c.pushdesc {
        a.push(EXT_PUSH_DESC@)
    } else {
        a
    };
    let d = if c.mutable_fmt {
        b.push(EXT_MUTABLE_FMT@)
    } else {
        b
    };
    if c.sync2 {
        d.push(EXT_SYNCHRONIZATION2@)
    } else {
        d
    }
}

/// The log lines of a plan, in order: dynamic rendering, push descriptors,
/// mutable format, compute path, synchronization2, async compute.
pub open spec fn planned_messages(s: Settings, q: DeviceQuery, async_first: Option<u32>) -> Seq<(MsgLevel, Seq<char>)> {
    let exts = views(q.supported_exts@);
    let storage = s.compute && q.storage_write_feature;
    let m1 = opt_push(Seq::empty(), opt_message(s.opt_dynren, in_list(exts, EXT_DYN_RENDER@) && q.dynren_feature, "dynamic_rendering"@, EXT_DYN_RENDER@));
    let m2 = opt_push(m1, opt_message(s.opt_pushdesc, in_list(exts, EXT_PUSH_DESC@), "push_descriptors"@, EXT_PUSH_DESC@));
    let m3 = opt_push(m2, opt_message(s.opt_mutable_fmt, in_list(exts, EXT_MUTABLE_FMT@), "mutable_format"@, EXT_MUTABLE_FMT@));
    let m4 = opt_push(m3, opt_message(s.compute, q.storage_write_feature, "compute_path"@, DEP_STORAGE_WRITE@));
    let m5 = opt_push(m4, opt_message(s.opt_sync2, in_list(exts, EXT_SYNCHRONIZATION2@) && q.sync2_feature, "synchronization2"@, EXT_SYNCHRONIZATION2@));
    opt_push(m5, opt_message(s.opt_async_compute && s.compute, async_first is Some && storage, "async_compute"@, DEP_ASYNC_QUEUE@))
}

/// Appends a log line, if there is one.
fn push_message(out: &mut Vec<(MsgLevel, String)>, m: Option<(MsgLevel, String)>)
    ensures
        msg_views(final(out)@) == opt_push(msg_views(old(out)@), opt_msg(m)),
{
    let ghost before = out@;
    match m {
        Some(x) => {
            let ghost xv = msg_view(x);
            out.push(x);
            assert(msg_views(out@) =~= msg_views(before).push(xv));
        },
        None => {},
    }
}

/// A copy of a list of strings.
pub fn clone_strings(v: &Vec<String>) -> (r: Vec<String>)
    ensures
        views(r@) == views(v@),
{
    let mut out: Vec<String> = Vec::new();
    let mut i: usize = 0;
    while i < v.len()
        invariant
            i <= v.len(),
            views(out@) == views(v@).take(i as int),
        decreases v.len() - i,
    {
        let ghost before = out@;
        let c = v[i].as_str().to_owned();
        out.push(c);
        assert(views(v@)[i as int] == v@[i as int]@);
        assert(views(out@) =~= views(before).push(c@));
        assert(views(v@).take(i + 1) =~= views(v@).take(i as int).push(v@[i as int]@));
        i = i + 1;
    }
    assert(views(v@).take(v.len() as int) =~= views(v@));
    out
}

/// The fast paths of a device, given the first family usable for async compute.
pub fn caps_for(q: &DeviceQuery, s: &Settings, async_first: Option<u32>) -> (r: DeviceCaps)
    ensures
        r == planned_caps(*s, *q, async_first),
{
    let dynren = s.opt_dynren && (ext_supported(&q.supported_exts, EXT_DYN_RENDER) && q.dynren_feature);
    let pushdesc = s.opt_pushdesc && ext_supported(&q.supported_exts, EXT_PUSH_DESC);
    let mutable = s.opt_mutable_fmt && ext_supported(&q.supported_exts, EXT_MUTABLE_FMT);
    let storage = s.compute && q.storage_write_feature;
    let sync2 = s.opt_sync2 && (ext_supported(&q.supported_exts, EXT_SYNCHRONIZATION2) && q.sync2_feature);
    let use_async = (s.opt_async_compute && s.compute) && (async_first.is_some() && storage);
    DeviceCaps {
        dynren,
        pushdesc,
        mutable_fmt: mutable,
        storage_image_write_without_fmt: storage,
        sync2,
        async_compute_family: if use_async {
            async_first
        } else {
            None
        },
        max_wg_x: q.max_wg_x,
        max_wg_y: q.max_wg_y,
        max_wg_invocations: q.max_wg_invocations,
    }
}

/// The present lines among six optional ones, in order.
fn collect_messages(
    m1: Option<(MsgLevel, String)>,
    m2: Option<(MsgLevel, String)>,
    m3: Option<(MsgLevel, String)>,
    m4: Option<(MsgLevel, String)>,
    m5: Option<(MsgLevel, String)>,
    m6: Option<(MsgLevel, String)>,
) -> (r: Vec<(MsgLevel, String)>)
    ensures
        msg_views(r@) == opt_push(opt_push(opt_push(opt_push(opt_push(opt_push(Seq::empty(), opt_msg(m1)), opt_msg(m2)), opt_msg(m3)), opt_msg(m4)), opt_msg(m5)), opt_msg(m6)),
{
    let mut out: Vec<(MsgLevel, String)> = Vec::new();
    assert(msg_views(out@) =~= Seq::<(MsgLevel, Seq<char>)>::empty());
    push_message(&mut out, m1);
    push_message(&mut out, m2);
    push_message(&mut out, m3);
    push_message(&mut out, m4);
    push_message(&mut out, m5);
    push_message(&mut out, m6);
    out
}

/// The log lines reporting a device's fast paths, given the first family
/// usable for async compute.
pub fn messages_for(q: &DeviceQuery, s: &Settings, async_first: Option<u32>) -> (r: Vec<(MsgLevel, String)>)
    ensures
        msg_views(r@) == planned_messages(*s, *q, async_first),
{
    let dynren_avail = ext_supported(&q.supported_exts, EXT_DYN_RENDER) && q.dynren_feature;
    let pushdesc_avail = ext_supported(&q.supported_exts, EXT_PUSH_DESC);
    let mutable_avail = ext_supported(&q.supported_exts, EXT_MUTABLE_FMT);
    let sync2_avail = ext_supported(&q.supported_exts, EXT_SYNCHRONIZATION2) && q.sync2_feature;
    let storage = s.compute && q.storage_write_feature;
    let (_, m1) = log_opt(s.opt_dynren, dynren_avail, "dynamic_rendering", EXT_DYN_RENDER);
    let (_, m2) = log_opt(s.opt_pushdesc, pushdesc_avail, "push_descriptors", EXT_PUSH_DESC);
    let (_, m3) = log_opt(s.opt_mutable_fmt, mutable_avail, "mutable_format", EXT_MUTABLE_FMT);
    let (_, m4) = log_opt(s.compute, q.storage_write_feature, "compute_path", DEP_STORAGE_WRITE);
    let (_, m5) = log_opt(s.opt_sync2, sync2_avail, "synchronization2", EXT_SYNCHRONIZATION2);
    let (_, m6) = log_opt(s.opt_async_compute && s.compute, async_first.is_some() && storage, "async_compute", DEP_ASYNC_QUEUE);
    collect_messages(m1, m2, m3, m4, m5, m6)
}

/// How the layer rewrites a device request for the device `q` describes, given
/// the settings: the fast paths, the extensions and queues to add, the feature
/// to switch on, and the log lines.
pub fn build_augmented(q: &DeviceQuery, req: &DeviceRequest, s: &Settings) -> (r: DevicePlan)
    requires
        q.queue_families.len() <= u32::MAX,
    ensures
        r.caps == planned_caps(*s, *q, first_async(q.queue_families@, req.queue_families@)),
        msg_views(r.messages@) == planned_messages(*s, *q, first_async(q.queue_families@, req.queue_families@)),
        views(r.extensions@) == planned_exts(views(req.extensions@), r.caps),
        r.queue_families@ == (match r.caps.async_compute_family {
            Some(f) => req.queue_families@.push(f),
            None => req.queue_families@,
        }),
        r.enable_storage_write == r.caps.storage_image_write_without_fmt,
{
    let async_first = find_async_compute_family(&q.queue_families, &req.queue_families);
    let caps = caps_for(q, s, async_first);
    let messages = messages_for(q, s, async_first);
    let mut exts = clone_strings(&req.extensions);
    add_if_chosen(caps.dynren, EXT_DYN_RENDER, &mut exts);
    add_if_chosen(caps.pushdesc, EXT_PUSH_DESC, &mut exts);
    add_if_chosen(caps.mutable_fmt, EXT_MUTABLE_FMT, &mut exts);
    add_if_chosen(caps.sync2, EXT_SYNCHRONIZATION2, &mut exts);
    let mut families: Vec<u32> = req.queue_families.clone();
    match caps.async_compute_family {
        Some(f) => families.push(f),
        None => {},
    }
    DevicePlan {
        caps,
        extensions: exts,
        queue_families: families,
        enable_storage_write: caps.storage_image_write_without_fmt,
        messages,
    }
}

/// `s` with `m` appended when it is present.
pub open spec fn opt_push<A>(s: Seq<A>, m: Option<A>) -> Seq<A> {
    match m {
        Some(x) => s.push(x),
        None => s,
    }
}


/// A fast path is used exactly when the settings request it and the device
/// supports it, and then its log line is an info line (a requested path the
/// device lacks is only warned about); so every extension the plan adds to the
/// application's own is one the device supports.
pub proof fn law_fast_paths_need_device_support(s: Settings, q: DeviceQuery, async_first: Option<u32>, app: Seq<Seq<char>>)
    ensures
        ({
            let c = planned_caps(s, q, async_first);
            let sup = views(q.supported_exts@);
            &&& c.dynren <==> s.opt_dynren && sup.contains(EXT_DYN_RENDER@) && q.dynren_feature
            &&& c.pushdesc <==> s.opt_pushdesc && sup.contains(EXT_PUSH_DESC@)
            &&& c.mutable_fmt <==> s.opt_mutable_fmt && sup.contains(EXT_MUTABLE_FMT@)
            &&& c.sync2 <==> s.opt_sync2 && sup.contains(EXT_SYNCHRONIZATION2@) && q.sync2_feature
            &&& c.storage_image_write_without_fmt <==> s.compute && q.storage_write_feature
            &&& forall|x: Seq<char>| #[trigger] planned_exts(app, c).contains(x) && !app.contains(x) ==> sup.contains(x)
            &&& (c.dynren <==> match opt_message(s.opt_dynren, sup.contains(EXT_DYN_RENDER@) && q.dynren_feature,
                "dynamic_rendering"@, EXT_DYN_RENDER@) { Some(m) => m.0 == MsgLevel::Info, None => false })
            &&& (c.pushdesc <==> match opt_message(s.opt_pushdesc, sup.contains(EXT_PUSH_DESC@), "push_descriptors"@,
                EXT_PUSH_DESC@) { Some(m) => m.0 == MsgLevel::Info, None => false })
            &&& (c.mutable_fmt <==> match opt_message(s.opt_mutable_fmt, sup.contains(EXT_MUTABLE_FMT@), "mutable_format"@,
                EXT_MUTABLE_FMT@) { Some(m) => m.0 == MsgLevel::Info, None => false })
            &&& (c.sync2 <==> match opt_message(s.opt_sync2, sup.contains(EXT_SYNCHRONIZATION2@) && q.sync2_feature,
                "synchronization2"@, EXT_SYNCHRONIZATION2@) { Some(m) => m.0 == MsgLevel::Info, None => false })
        }),
{
    reveal(opt_message);
    let c = planned_caps(s, q, async_first);
    let sup = views(q.supported_exts@);
    assert forall|x: Seq<char>| #[trigger] planned_exts(app, c).contains(x) && !app.contains(x) implies sup.contains(x) by {
        let a1 = if c.dynren { app.push(EXT_DYN_RENDER@) } else { app };
        let b1 = if c.pushdesc { a1.push(EXT_PUSH_DESC@) } else { a1 };
        let d1 = if c.mutable_fmt { b1.push(EXT_MUTABLE_FMT@) } else { b1 };
        assert(planned_exts(app, c) == (if c.sync2 { d1.push(EXT_SYNCHRONIZATION2@) } else { d1 }));
        let k = choose|k: int| 0 <= k < planned_exts(app, c).len() && planned_exts(app, c)[k] == x;
        if c.sync2 && k == d1.len() {
        } else {
            assert(d1.contains(x)) by { assert(d1[k] == x); }
            let k1 = choose|k1: int| 0 <= k1 < d1.len() && d1[k1] == x;
            if c.mutable_fmt && k1 == b1.len() {
            } else {
                assert(b1[k1] == x);
                if c.pushdesc && k1 == a1.len() {
                } else {
                    assert(a1[k1] == x);
                    if c.dynren && k1 == app.len() {
                    } else {
                        assert(app[k1] == x);
                        assert(app.contains(x));
                    }
                }
            }
        }
    }
}

/// The plan enables the application's extensions, unchanged and first, and
/// then every fast path in use: the extension of each path in use is enabled,
/// and no extension beyond the application's is added for a path not in use.
pub proof fn law_plan_keeps_app_extensions(app: Seq<Seq<char>>, c: DeviceCaps)
    ensures
        planned_exts(app, c).len() >= app.len(),
        planned_exts(app, c).take(app.len() as int) == app,
        c.dynren ==> planned_exts(app, c).contains(EXT_DYN_RENDER@),
        c.pushdesc ==> planned_exts(app, c).contains(EXT_PUSH_DESC@),
        c.mutable_fmt ==> planned_exts(app, c).contains(EXT_MUTABLE_FMT@),
        c.sync2 ==> planned_exts(app, c).contains(EXT_SYNCHRONIZATION2@),
        planned_exts(app, c).len() == app.len() + (if c.dynren { 1int } else { 0 }) + (if c.pushdesc { 1int } else { 0 })
            + (if c.mutable_fmt { 1int } else { 0 }) + (if c.sync2 { 1int } else { 0 }),
{
    broadcast use vstd::seq_lib::lemma_seq_contains_after_push;

    let a1 = if c.dynren { app.push(EXT_DYN_RENDER@) } else { app };
    let b1 = if c.pushdesc { a1.push(EXT_PUSH_DESC@) } else { a1 };
    let d1 = if c.mutable_fmt { b1.push(EXT_MUTABLE_FMT@) } else { b1 };
    let r = if c.sync2 { d1.push(EXT_SYNCHRONIZATION2@) } else { d1 };
    assert(planned_exts(app, c) == r);
    assert(r.take(app.len() as int) =~= app);
}

proof fn lemma_first_async_from(props: Seq<QueueFamilyInfo>, app: Seq<u32>, i: int)
    requires
        0 <= i <= props.len(),
        props.len() <= u32::MAX,
    ensures
        first_async_from(props, app, i) matches Some(f) ==> i <= f < props.len() && async_candidate(props, app, f as int),
    decreases props.len() - i,
{
    if i < props.len() && !async_candidate(props, app, i) {
        lemma_first_async_from(props, app, i + 1);
    }
}

/// Async compute only ever takes a dedicated compute family (compute without
/// graphics, with queues) that the application does not use, and only with
/// the compute path in use and both settings on.
pub proof fn law_async_family_is_dedicated(s: Settings, q: DeviceQuery, app: Seq<u32>)
    requires
        q.queue_families.len() <= u32::MAX,
    ensures
        planned_caps(s, q, first_async(q.queue_families@, app)).async_compute_family matches Some(f) ==> {
            &&& f < q.queue_families.len()
            &&& compute_only(q.queue_families@[f as int])
            &&& !app.contains(f)
            &&& s.compute && s.opt_async_compute && q.storage_write_feature
        },
{
    lemma_first_async_from(q.queue_families@, app, 0);
    match first_async(q.queue_families@, app) {
        Some(f) => {
            assert(async_candidate(q.queue_families@, app, f as int));
            assert((f as int) as u32 == f);
        },
        None => {},
    }
}

} // verus!
