//! The layer's registry of Vulkan instances, physical devices and queues, and
//! how it answers the loader's requests for function pointers.
use vstd::prelude::*;

use crate::table::KeyTable;
use crate::text::str_eq;
use crate::text::views;

verus! {

pub const API_VERSION_1_0: u32 = 4194304;
pub const API_VERSION_1_1: u32 = 4198400;
pub const EXT_GPDP2: &'static str = "VK_KHR_get_physical_device_properties2";
pub const FEATURES2_KHR: &'static str = "vkGetPhysicalDeviceFeatures2KHR";
pub const FEATURES2: &'static str = "vkGetPhysicalDeviceFeatures2";

/// What the layer keeps of an instance.
#[derive(Clone, Copy, Debug, PartialEq, Eq, Structural)]
pub struct InstInfo {
    pub api_version: u32,
    pub gpdp2: bool,
}

/// The device and family a queue belongs to.
#[derive(Clone, Copy, Debug, PartialEq, Eq, Structural)]
pub struct QueueBinding {
    pub device: u64,
    pub family: u32,
}

/// The layer's registries, keyed by raw handles.
pub struct LayerState {
    pub insts: KeyTable<InstInfo>,
    /// Physical device to the instance that enumerated it.
    pub phys_owner: KeyTable<u64>,
    pub queue_dev: KeyTable<QueueBinding>,
}

impl LayerState {
    /// Empty registries.
    pub fn new() -> (r: LayerState)
        ensures
            r.insts@ == Map::<u64, InstInfo>::empty(),
            r.phys_owner@ == Map::<u64, u64>::empty(),
            r.queue_dev@ == Map::<u64, QueueBinding>::empty(),
    {
        LayerState { insts: KeyTable::new(), phys_owner: KeyTable::new(), queue_dev: KeyTable::new() }
    }
}

/// The instance record of `h`.
pub fn insts_get(st: &LayerState, h: u64) -> (r: Option<InstInfo>)
    ensures
        r == (if st.insts@.contains_key(h) {
            Some(st.insts@[h])
        } else {
            None
        }),
{
    st.insts.get(h)
}

/// Records instance `h`.
pub fn insts_put(st: &mut LayerState, h: u64, v: InstInfo)
    ensures
        final(st).insts@ == old(st).insts@.insert(h, v),
        final(st).phys_owner@ == old(st).phys_owner@,
        final(st).queue_dev@ == old(st).queue_dev@,
{
    st.insts.put(h, v);
}

/// Forgets every physical device owned by instance `inst`.
pub fn phys_owner_del_inst(t: &mut KeyTable<u64>, inst: u64)
    ensures
        forall|k: u64| #[trigger] final(t)@.contains_key(k) <==> old(t)@.contains_key(k) && old(t)@[k] != inst,
        forall|k: u64| #[trigger] final(t)@.contains_key(k) ==> final(t)@[k] == old(t)@[k],
{
    let ghost t0 = t@;
    let ks = t.keys();
    let mut i: usize = 0;
    while i < ks.len()
        invariant
            i <= ks.len(),
            forall|k: u64| t0.contains_key(k) <==> #[trigger] ks@.contains(k),
            forall|k: u64| #[trigger] t@.contains_key(k) ==> t0.contains_key(k) && t@[k] == t0[k],
            forall|k: u64| #[trigger] t0.contains_key(k) && t0[k] != inst ==> t@.contains_key(k),
            forall|j: int| 0 <= j < i ==> (#[trigger] t0.contains_key(ks@[j]) && t0[ks@[j]] == inst) ==> !t@.contains_key(ks@[j]),
        decreases ks.len() - i,
    {
        let k = ks[i];
        match t.get(k) {
            Some(owner) => {
                if owner == inst {
                    t.remove(k);
                }
            },
            None => {},
        }
        i = i + 1;
    }
    assert forall|k: u64| #[trigger] t@.contains_key(k) <==> t0.contains_key(k) && t0[k] != inst by {
        if t0.contains_key(k) && t0[k] == inst {
            assert(ks@.contains(k));
            let j = choose|j: int| 0 <= j < ks@.len() && ks@[j] == k;
            assert(t0.contains_key(ks@[j]));
        }
    }
}

/// Forgets instance `h` and the physical devices it owns; true when no
/// instance is left (the last instance is gone).
pub fn insts_del(st: &mut LayerState, h: u64) -> (r: bool)
    ensures
        final(st).insts@ == old(st).insts@.remove(h),
        forall|k: u64| #[trigger] final(st).phys_owner@.contains_key(k) <==> old(st).phys_owner@.contains_key(k)
            && old(st).phys_owner@[k] != h,
        forall|k: u64| #[trigger] final(st).phys_owner@.contains_key(k) ==> final(st).phys_owner@[k] == old(st).phys_owner@[k],
        final(st).queue_dev@ == old(st).queue_dev@,
        r == (final(st).insts@ == Map::<u64, InstInfo>::empty()),
{
    phys_owner_del_inst(&mut st.phys_owner, h);
    st.insts.remove(h);
    st.insts.is_empty()
}

/// The instance recorded as owner of `phys`.
pub fn phys_owner_get(st: &LayerState, phys: u64) -> (r: Option<u64>)
    ensures
        r == (if st.phys_owner@.contains_key(phys) {
            Some(st.phys_owner@[phys])
        } else {
            None
        }),
{
    st.phys_owner.get(phys)
}

/// Records `inst` as owner of `phys`.
pub fn phys_owner_put(st: &mut LayerState, phys: u64, inst: u64)
    ensures
        final(st).phys_owner@ == old(st).phys_owner@.insert(phys, inst),
        final(st).insts@ == old(st).insts@,
        final(st).queue_dev@ == old(st).queue_dev@,
{
    st.phys_owner.put(phys, inst);
}

/// The cached owner of `phys`, when that instance is still registered.
pub fn owner_cached(st: &LayerState, phys: u64) -> (r: Option<u64>)
    ensures
        r == (if st.phys_owner@.contains_key(phys) && st.insts@.contains_key(st.phys_owner@[phys]) {
            Some(st.phys_owner@[phys])
        } else {
            None
        }),
{
    match phys_owner_get(st, phys) {
        Some(h) => if st.insts.contains(h) {
            Some(h)
        } else {
            None
        },
        None => None,
    }
}

/// Caches the owner a scan of the instances found for `phys`, and returns it.
pub fn cache_owner(st: &mut LayerState, phys: u64, found: Option<u64>) -> (r: Option<u64>)
    ensures
        r == found,
        final(st).phys_owner@ == (match found {
            Some(h) => old(st).phys_owner@.insert(phys, h),
            None => old(st).phys_owner@,
        }),
        final(st).insts@ == old(st).insts@,
        final(st).queue_dev@ == old(st).queue_dev@,
{
    match found {
        Some(h) => {
            phys_owner_put(st, phys, h);
            Some(h)
        },
        None => None,
    }
}

/// The device and family of queue `q`.
pub fn queue_dev_get(st: &LayerState, q: u64) -> (r: Option<QueueBinding>)
    ensures
        r == (if st.queue_dev@.contains_key(q) {
            Some(st.queue_dev@[q])
        } else {
            None
        }),
{
    st.queue_dev.get(q)
}

/// Records the device and family of queue `q`.
pub fn queue_dev_put(st: &mut LayerState, q: u64, b: QueueBinding)
    ensures
        final(st).queue_dev@ == old(st).queue_dev@.insert(q, b),
        final(st).insts@ == old(st).insts@,
        final(st).phys_owner@ == old(st).phys_owner@,
{
    st.queue_dev.put(q, b);
}

/// The API version an application asks for, 1.0 when it leaves it 0.
pub fn version_or_default(v: u32) -> (r: u32)
    ensures
        r == (if v == 0 { API_VERSION_1_0 } else { v }),
{
    if v == 0 {
        API_VERSION_1_0
    } else {
        v
    }
}

/// Whether the application enables `VK_KHR_get_physical_device_properties2`.
pub fn app_has_gpdp2(ext_names: &Vec<String>) -> (r: bool)
    ensures
        r == views(ext_names@).contains(EXT_GPDP2@),
{
    let mut i: usize = 0;
    while i < ext_names.len()
        invariant
            i <= ext_names.len(),
            forall|k: int| 0 <= k < i ==> #[trigger] ext_names@[k]@ != EXT_GPDP2@,
        decreases ext_names.len() - i,
    {
        if str_eq(ext_names[i].as_str(), EXT_GPDP2) {
            assert(views(ext_names@)[i as int] == EXT_GPDP2@);
            return true;
        }
        i = i + 1;
    }
    assert forall|k: int| 0 <= k < views(ext_names@).len() implies #[trigger] views(ext_names@)[k] != EXT_GPDP2@ by {
        assert(views(ext_names@)[k] == ext_names@[k]@);
    }
    false
}

/// The entry point for reading extension features: the KHR one when the
/// application enabled its extension, the core one from Vulkan 1.1, else none.
pub fn features2_symbol(gpdp2: bool, api_version: u32) -> (r: Option<&'static str>)
    ensures
        match r {
            Some(n) => (gpdp2 && n@ == FEATURES2_KHR@) || (!gpdp2 && api_version >= API_VERSION_1_1 && n@ == FEATURES2@),
            None => !gpdp2 && api_version < API_VERSION_1_1,
        },
{
    if gpdp2 {
        Some(FEATURES2_KHR)
    } else if api_version >= API_VERSION_1_1 {
        Some(FEATURES2)
    } else {
        None
    }
}

/// The functions the layer intercepts.
#[derive(Clone, Copy, Debug, PartialEq, Eq, Structural)]
pub enum VkHook {
    GetInstanceProcAddr,
    GetDeviceProcAddr,
    CreateInstance,
    DestroyInstance,
    CreateDevice,
    DestroyDevice,
    CreateSwapchain,
    DestroySwapchain,
    QueuePresent,
    GetDeviceQueue,
    GetDeviceQueue2,
}

/// The intercepted function a name denotes.
pub open spec fn vk_hook_of(n: Seq<char>) -> Option<VkHook> {
    if n == "vkGetInstanceProcAddr"@ {
        Some(VkHook::GetInstanceProcAddr)
    } else if n == "vkGetDeviceProcAddr"@ {
        Some(VkHook::GetDeviceProcAddr)
    } else if n == "vkCreateInstance"@ {
        Some(VkHook::CreateInstance)
    } else if n == "vkDestroyInstance"@ {
        Some(VkHook::DestroyInstance)
    } else if n == "vkCreateDevice"@ {
        Some(VkHook::CreateDevice)
    } else if n == "vkDestroyDevice"@ {
        Some(VkHook::DestroyDevice)
    } else if n == "vkCreateSwapchainKHR"@ {
        Some(VkHook::CreateSwapchain)
    } else if n == "vkDestroySwapchainKHR"@ {
        Some(VkHook::DestroySwapchain)
    } else if n == "vkQueuePresentKHR"@ {
        Some(VkHook::QueuePresent)
    } else if n == "vkGetDeviceQueue"@ {
        Some(VkHook::GetDeviceQueue)
    } else if n == "vkGetDeviceQueue2"@ {
        Some(VkHook::GetDeviceQueue2)
    } else {
        None
    }
}

/// The intercepted function `name` denotes, if any.
pub fn vk_hooked_symbol(name: &str) -> (r: Option<VkHook>)
    ensures
        r == vk_hook_of(name@),
{
    if str_eq(name, "vkGetInstanceProcAddr") {
        Some(VkHook::GetInstanceProcAddr)
    } else if str_eq(name, "vkGetDeviceProcAddr") {
        Some(VkHook::GetDeviceProcAddr)
    } else if str_eq(name, "vkCreateInstance") {
        Some(VkHook::CreateInstance)
    } else if str_eq(name, "vkDestroyInstance") {
        Some(VkHook::DestroyInstance)
    } else if str_eq(name, "vkCreateDevice") {
        Some(VkHook::CreateDevice)
    } else if str_eq(name, "vkDestroyDevice") {
        Some(VkHook::DestroyDevice)
    } else if str_eq(name, "vkCreateSwapchainKHR") {
        Some(VkHook::CreateSwapchain)
    } else if str_eq(name, "vkDestroySwapchainKHR") {
        Some(VkHook::DestroySwapchain)
    } else if str_eq(name, "vkQueuePresentKHR") {
        Some(VkHook::QueuePresent)
    } else if str_eq(name, "vkGetDeviceQueue") {
        Some(VkHook::GetDeviceQueue)
    } else if str_eq(name, "vkGetDeviceQueue2") {
        Some(VkHook::GetDeviceQueue2)
    } else {
        None
    }
}

/// The Vulkan entry point each interception stands for.
pub open spec fn vk_hook_name(h: VkHook) -> Seq<char> {
    match h {
        VkHook::GetInstanceProcAddr => "vkGetInstanceProcAddr"@,
        VkHook::GetDeviceProcAddr => "vkGetDeviceProcAddr"@,
        VkHook::CreateInstance => "vkCreateInstance"@,
        VkHook::DestroyInstance => "vkDestroyInstance"@,
        VkHook::CreateDevice => "vkCreateDevice"@,
        VkHook::DestroyDevice => "vkDestroyDevice"@,
        VkHook::CreateSwapchain => "vkCreateSwapchainKHR"@,
        VkHook::DestroySwapchain => "vkDestroySwapchainKHR"@,
        VkHook::QueuePresent => "vkQueuePresentKHR"@,
        VkHook::GetDeviceQueue => "vkGetDeviceQueue"@,
        VkHook::GetDeviceQueue2 => "vkGetDeviceQueue2"@,
    }
}

/// The layer intercepts exactly its eleven entry points: each one's name
/// resolves to its own interception (so, with an instance or device, the
/// lookup answers with the layer's function), and no other name is intercepted.
pub proof fn law_intercepted_names_resolve_to_their_hooks(h: VkHook, n: Seq<char>)
    ensures
        vk_hook_of(vk_hook_name(h)) == Some(h),
        vk_hook_of(n) matches Some(g) ==> n == vk_hook_name(g),
{
    reveal_strlit("vkGetInstanceProcAddr");
    reveal_strlit("vkGetDeviceProcAddr");
    reveal_strlit("vkCreateInstance");
    reveal_strlit("vkDestroyInstance");
    reveal_strlit("vkCreateDevice");
    reveal_strlit("vkDestroyDevice");
    reveal_strlit("vkCreateSwapchainKHR");
    reveal_strlit("vkDestroySwapchainKHR");
    reveal_strlit("vkQueuePresentKHR");
    reveal_strlit("vkGetDeviceQueue");
    reveal_strlit("vkGetDeviceQueue2");
    assert("vkGetInstanceProcAddr"@.len() == 21 && "vkGetInstanceProcAddr"@[2] == 'G' && "vkGetInstanceProcAddr"@[20] == 'r');
    assert("vkGetDeviceProcAddr"@.len() == 19 && "vkGetDeviceProcAddr"@[2] == 'G' && "vkGetDeviceProcAddr"@[18] == 'r');
    assert("vkCreateInstance"@.len() == 16 && "vkCreateInstance"@[2] == 'C' && "vkCreateInstance"@[15] == 'e');
    assert("vkDestroyInstance"@.len() == 17 && "vkDestroyInstance"@[2] == 'D' && "vkDestroyInstance"@[16] == 'e');
    assert("vkCreateDevice"@.len() == 14 && "vkCreateDevice"@[2] == 'C' && "vkCreateDevice"@[13] == 'e');
    assert("vkDestroyDevice"@.len() == 15 && "vkDestroyDevice"@[2] == 'D' && "vkDestroyDevice"@[14] == 'e');
    assert("vkCreateSwapchainKHR"@.len() == 20 && "vkCreateSwapchainKHR"@[2] == 'C' && "vkCreateSwapchainKHR"@[19] == 'R');
    assert("vkDestroySwapchainKHR"@.len() == 21 && "vkDestroySwapchainKHR"@[2] == 'D' && "vkDestroySwapchainKHR"@[20] == 'R');
    assert("vkQueuePresentKHR"@.len() == 17 && "vkQueuePresentKHR"@[2] == 'Q' && "vkQueuePresentKHR"@[16] == 'R');
    assert("vkGetDeviceQueue"@.len() == 16 && "vkGetDeviceQueue"@[2] == 'G' && "vkGetDeviceQueue"@[15] == 'e');
    assert("vkGetDeviceQueue2"@.len() == 17 && "vkGetDeviceQueue2"@[2] == 'G' && "vkGetDeviceQueue2"@[16] == '2');
}

/// The global functions the loader may look up without an instance.
#[derive(Clone, Copy, Debug, PartialEq, Eq, Structural)]
pub enum GlobalEntry {
    CreateInstance,
    EnumerateInstanceVersion,
    EnumerateInstanceExtensionProperties,
    EnumerateInstanceLayerProperties,
}

/// The global function a name denotes.
pub open spec fn global_of(n: Seq<char>) -> Option<GlobalEntry> {
    if n == "vkCreateInstance"@ {
        Some(GlobalEntry::CreateInstance)
    } else if n == "vkEnumerateInstanceVersion"@ {
        Some(GlobalEntry::EnumerateInstanceVersion)
    } else if n == "vkEnumerateInstanceExtensionProperties"@ {
        Some(GlobalEntry::EnumerateInstanceExtensionProperties)
    } else if n == "vkEnumerateInstanceLayerProperties"@ {
        Some(GlobalEntry::EnumerateInstanceLayerProperties)
    } else {
        None
    }
}

/// The loader's name of each global function.
pub open spec fn global_name(g: GlobalEntry) -> Seq<char> {
    match g {
        GlobalEntry::CreateInstance => "vkCreateInstance"@,
        GlobalEntry::EnumerateInstanceVersion => "vkEnumerateInstanceVersion"@,
        GlobalEntry::EnumerateInstanceExtensionProperties => "vkEnumerateInstanceExtensionProperties"@,
        GlobalEntry::EnumerateInstanceLayerProperties => "vkEnumerateInstanceLayerProperties"@,
    }
}

/// Without an instance the layer answers exactly its four global functions:
/// each one's name resolves to it, and no other name does.
pub proof fn law_global_names_resolve(g: GlobalEntry, n: Seq<char>)
    ensures
        global_of(global_name(g)) == Some(g),
        global_of(n) matches Some(e) ==> n == global_name(e),
{
    reveal_strlit("vkCreateInstance");
    assert("vkCreateInstance"@.len() == 16);
    reveal_strlit("vkEnumerateInstanceVersion");
    assert("vkEnumerateInstanceVersion"@.len() == 26);
    reveal_strlit("vkEnumerateInstanceExtensionProperties");
    assert("vkEnumerateInstanceExtensionProperties"@.len() == 38);
    reveal_strlit("vkEnumerateInstanceLayerProperties");
    assert("vkEnumerateInstanceLayerProperties"@.len() == 34);
}

/// The global function `name` denotes, if any.
pub fn null_ok_entry(name: &str) -> (r: Option<GlobalEntry>)
    ensures
        r == global_of(name@),
{
    if str_eq(name, "vkCreateInstance") {
        Some(GlobalEntry::CreateInstance)
    } else if str_eq(name, "vkEnumerateInstanceVersion") {
        Some(GlobalEntry::EnumerateInstanceVersion)
    } else if str_eq(name, "vkEnumerateInstanceExtensionProperties") {
        Some(GlobalEntry::EnumerateInstanceExtensionProperties)
    } else if str_eq(name, "vkEnumerateInstanceLayerProperties") {
        Some(GlobalEntry::EnumerateInstanceLayerProperties)
    } else {
        None
    }
}

/// Whether `name` may be looked up without an instance.
pub fn null_ok_name(name: &str) -> (r: bool)
    ensures
        r == (global_of(name@) is Some),
{
    null_ok_entry(name).is_some()
}

/// The answer to `vkGetInstanceProcAddr`.
#[derive(Clone, Copy, Debug, PartialEq, Eq, Structural)]
pub enum InstanceProc {
    /// The layer's own global function.
    Global(GlobalEntry),
    /// The layer's interception.
    Hook(VkHook),
    /// The next layer's answer, through the instance's dispatch.
    Forward,
    /// A null pointer.
    Null,
}

/// `vkGetInstanceProcAddr`: without an instance, only the global functions;
/// with one, the layer's interceptions, else the next layer's function when the
/// instance is registered.
pub fn resolve_instance_proc(inst_is_null: bool, name: &str, inst_known: bool) -> (r: InstanceProc)
    ensures
        r == (if inst_is_null {
            match global_of(name@) {
                Some(g) => InstanceProc::Global(g),
                None => InstanceProc::Null,
            }
        } else {
            match vk_hook_of(name@) {
                Some(h) => InstanceProc::Hook(h),
                None => if inst_known {
                    InstanceProc::Forward
                } else {
                    InstanceProc::Null
                },
            }
        }),
{
    if inst_is_null {
        match null_ok_entry(name) {
            Some(g) => InstanceProc::Global(g),
            None => InstanceProc::Null,
        }
    } else {
        match vk_hooked_symbol(name) {
            Some(h) => InstanceProc::Hook(h),
            None => if inst_known {
                InstanceProc::Forward
            } else {
                InstanceProc::Null
            },
        }
    }
}

/// `vkGetDeviceProcAddr`: the layer's interceptions, else the next layer's
/// function when the device is registered.
pub fn resolve_device_proc(name: &str, dev_known: bool) -> (r: InstanceProc)
    ensures
        r == (match vk_hook_of(name@) {
            Some(h) => InstanceProc::Hook(h),
            None => if dev_known {
                InstanceProc::Forward
            } else {
                InstanceProc::Null
            },
        }),
{
    match vk_hooked_symbol(name) {
        Some(h) => InstanceProc::Hook(h),
        None => if dev_known {
            InstanceProc::Forward
        } else {
            InstanceProc::Null
        },
    }
}

} // verus!
