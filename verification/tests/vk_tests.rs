use bones::vkswap::blit_choice;
use bones::vkswap::storage_format_ok;
use bones::config::Settings;
use bones::table::KeyTable;
use bones::vkdevice::build_augmented;
use bones::vkdevice::ext_supported;
use bones::vkdevice::find_async_compute_family;
use bones::vkdevice::log_opt;
use bones::vkdevice::MsgLevel;
use bones::vkdevice::DeviceQuery;
use bones::vkdevice::DeviceRequest;
use bones::vkdevice::QueueFamilyInfo;
use bones::vklayer::app_has_gpdp2;
use bones::vklayer::cache_owner;
use bones::vklayer::features2_symbol;
use bones::vklayer::insts_del;
use bones::vklayer::insts_put;
use bones::vklayer::null_ok_name;
use bones::vklayer::owner_cached;
use bones::vklayer::phys_owner_get;
use bones::vklayer::queue_dev_get;
use bones::vklayer::queue_dev_put;
use bones::vklayer::resolve_device_proc;
use bones::vklayer::resolve_instance_proc;
use bones::vklayer::version_or_default;
use bones::vklayer::vk_hooked_symbol;
use bones::vklayer::GlobalEntry;
use bones::vklayer::InstInfo;
use bones::vklayer::InstanceProc;
use bones::vklayer::LayerState;
use bones::vklayer::QueueBinding;
use bones::vklayer::VkHook;
use bones::vkswap::check_rebuild_pipeline;
use bones::vkswap::choose_mode;
use bones::vkswap::concurrent_families;
use bones::vkswap::desc_layout_flags;
use bones::vkswap::dispatch_dims;
use bones::vkswap::ensure_fx;
use bones::vkswap::find_mem_type;
use bones::vkswap::first_swap_attempt;
use bones::vkswap::fmt_unorm;
use bones::vkswap::internal_image_families;
use bones::vkswap::need_upscaled_image_for_extent;
use bones::vkswap::new_swap_record;
use bones::vkswap::next_swap_step;
use bones::vkswap::pending_put;
use bones::vkswap::pick_dispatch_family;
use bones::vkswap::pick_submit_queue;
use bones::vkswap::present_has_fx;
use bones::vkswap::retry_pending_registrations;
use bones::vkswap::spv_or_fail;
use bones::vkswap::submit_res_needs_replacement;
use bones::vkswap::swap_del_for_device;
use bones::vkswap::swap_is_disabled;
use bones::vkswap::swap_put;
use bones::vkswap::swap_record_failure;
use bones::vkswap::swap_record_success;
use bones::vkswap::submit_outcome;
use bones::vkswap::swap_wants_postfx;
use bones::vkswap::take_history_init;
use bones::vkswap::upgrade_swapchain_sharing;
use bones::vkswap::upgrade_usage;
use bones::vkswap::write_to_swap;
use bones::vkswap::FxAction;
use bones::vkswap::FxInfo;
use bones::vkswap::PendingInfo;
use bones::vkswap::PostFxMode;
use bones::vkswap::QueueChoice;
use bones::vkswap::RebuildAction;
use bones::vkswap::SwapAttempt;
use bones::vkswap::SwapRecord;
use bones::vkswap::SwapStep;
use bones::vkswap::SwapWrite;

fn strings(v: &[&str]) -> Vec<String> {
    v.iter().map(|s| s.to_string()).collect()
}

fn query(exts: &[&str], families: Vec<QueueFamilyInfo>) -> DeviceQuery {
    DeviceQuery {
        supported_exts: strings(exts),
        dynren_feature: true,
        sync2_feature: true,
        storage_write_feature: true,
        max_wg_x: 1024,
        max_wg_y: 1024,
        max_wg_invocations: 1024,
        queue_families: families,
    }
}

fn fam(flags: u32, count: u32) -> QueueFamilyInfo {
    QueueFamilyInfo { flags, count }
}

#[test]
fn extension_lookup_and_log_lines() {
    let list = strings(&["VK_KHR_swapchain", "VK_KHR_push_descriptor"]);
    assert!(ext_supported(&list, "VK_KHR_push_descriptor"));
    assert!(!ext_supported(&list, "VK_KHR_dynamic_rendering"));
    assert_eq!(
        log_opt(true, false, "dynamic_rendering", "VK_KHR_dynamic_rendering"),
        (false, Some((MsgLevel::Warn, "optimization not applied: dynamic_rendering requires VK_KHR_dynamic_rendering".to_string())))
    );
    assert_eq!(
        log_opt(true, true, "push_descriptors", "VK_KHR_push_descriptor"),
        (true, Some((MsgLevel::Info, "optimization push_descriptors active via VK_KHR_push_descriptor".to_string())))
    );
    assert_eq!(log_opt(false, true, "x", "y"), (false, None));
}

#[test]
fn async_family_is_first_dedicated_unused() {
    let fams = vec![fam(3, 1), fam(2, 0), fam(2, 2), fam(6, 1)];
    assert_eq!(find_async_compute_family(&fams, &vec![0]), Some(2));
    assert_eq!(find_async_compute_family(&fams, &vec![0, 2]), Some(3));
    assert_eq!(find_async_compute_family(&fams, &vec![0, 2, 3]), None);
    assert_eq!(find_async_compute_family(&vec![fam(3, 1)], &vec![]), None);
}

#[test]
fn device_plan_with_everything_available() {
    let q = query(
        &["VK_KHR_dynamic_rendering", "VK_KHR_push_descriptor", "VK_KHR_swapchain_mutable_format", "VK_KHR_synchronization2"],
        vec![fam(3, 1), fam(2, 1)],
    );
    let req = DeviceRequest { extensions: strings(&["VK_KHR_swapchain"]), queue_families: vec![0] };
    let plan = build_augmented(&q, &req, &Settings::default());
    assert!(plan.caps.dynren && plan.caps.pushdesc && plan.caps.mutable_fmt && plan.caps.sync2);
    assert!(plan.caps.storage_image_write_without_fmt);
    assert_eq!(plan.caps.async_compute_family, Some(1));
    assert_eq!(
        plan.extensions,
        strings(&[
            "VK_KHR_swapchain",
            "VK_KHR_dynamic_rendering",
            "VK_KHR_push_descriptor",
            "VK_KHR_swapchain_mutable_format",
            "VK_KHR_synchronization2"
        ])
    );
    assert_eq!(plan.queue_families, vec![0, 1]);
    assert!(plan.enable_storage_write);
    assert_eq!(plan.messages.len(), 6);
    assert_eq!(plan.messages[5], (MsgLevel::Info, "optimization async_compute active via dedicated async compute queue family".to_string()));
}

#[test]
fn device_plan_with_nothing_available() {
    let mut q = query(&[], vec![fam(3, 1)]);
    q.storage_write_feature = false;
    let req = DeviceRequest { extensions: vec![], queue_families: vec![0] };
    let mut s = Settings::default();
    s.opt_pushdesc = false;
    let plan = build_augmented(&q, &req, &s);
    assert!(!plan.caps.dynren && !plan.caps.pushdesc && !plan.caps.mutable_fmt && !plan.caps.sync2);
    assert_eq!(plan.caps.async_compute_family, None);
    assert!(plan.extensions.is_empty());
    assert_eq!(plan.queue_families, vec![0]);
    assert!(!plan.enable_storage_write);
    assert_eq!(
        plan.messages.iter().map(|(l, m)| (*l, m.as_str())).collect::<Vec<_>>(),
        vec![
            (MsgLevel::Warn, "optimization not applied: dynamic_rendering requires VK_KHR_dynamic_rendering"),
            (MsgLevel::Warn, "optimization not applied: mutable_format requires VK_KHR_swapchain_mutable_format"),
            (MsgLevel::Warn, "optimization not applied: compute_path requires shaderStorageImageWriteWithoutFormat"),
            (MsgLevel::Warn, "optimization not applied: synchronization2 requires VK_KHR_synchronization2"),
            (MsgLevel::Warn, "optimization not applied: async_compute requires dedicated async compute queue family"),
        ]
    );
}

#[test]
fn swapchain_formats_and_usage() {
    assert_eq!(fmt_unorm(50), 44);
    assert_eq!(fmt_unorm(43), 37);
    assert_eq!(fmt_unorm(57), 51);
    assert_eq!(fmt_unorm(44), 44);
    assert_eq!(upgrade_usage(0x10), 0x17);
    assert_eq!(upgrade_usage(0), 0x17);
    assert_eq!(desc_layout_flags(true), 1);
    assert_eq!(desc_layout_flags(false), 0);
}

#[test]
fn swapchain_creation_fallbacks() {
    assert_eq!(first_swap_attempt(true, 50), SwapAttempt::Mutable);
    assert_eq!(first_swap_attempt(true, 44), SwapAttempt::Plain);
    assert_eq!(first_swap_attempt(false, 50), SwapAttempt::Plain);
    assert_eq!(
        next_swap_step(SwapAttempt::Mutable, true, 50, 50),
        SwapStep::Done { view_format: 44, mutable: true, usable: true }
    );
    assert_eq!(next_swap_step(SwapAttempt::Mutable, false, 50, 50), SwapStep::Try(SwapAttempt::Plain));
    assert_eq!(
        next_swap_step(SwapAttempt::Plain, true, 50, 50),
        SwapStep::Done { view_format: 50, mutable: false, usable: true }
    );
    assert_eq!(next_swap_step(SwapAttempt::Plain, false, 50, 50), SwapStep::Try(SwapAttempt::Passthrough));
    assert_eq!(
        next_swap_step(SwapAttempt::Passthrough, true, 50, 44),
        SwapStep::Done { view_format: 44, mutable: false, usable: false }
    );
}

#[test]
fn queue_families_for_sharing() {
    assert_eq!(concurrent_families(&vec![0, 0], &vec![2, 0, 2], Some(1)), vec![0, 0, 2, 1]);
    assert_eq!(concurrent_families(&vec![0], &vec![], Some(0)), vec![0]);
    assert_eq!(upgrade_swapchain_sharing(Some(1), &vec![0, 1]), Some(vec![0, 1]));
    assert_eq!(upgrade_swapchain_sharing(None, &vec![0, 1]), None);
    assert_eq!(upgrade_swapchain_sharing(Some(0), &vec![0]), None);
    assert_eq!(internal_image_families(0, 0), Vec::<u32>::new());
    assert_eq!(internal_image_families(0, 2), vec![0, 2]);
    assert_eq!(pick_dispatch_family(PostFxMode::Compute, Some(2), 0), 2);
    assert_eq!(pick_dispatch_family(PostFxMode::Fragment, Some(2), 0), 0);
    assert_eq!(pick_submit_queue(Some(2), true, 2), QueueChoice::Async);
    assert_eq!(pick_submit_queue(Some(2), false, 2), QueueChoice::Present);
    assert_eq!(pick_submit_queue(Some(2), true, 0), QueueChoice::Present);
    assert!(submit_res_needs_replacement(None, 0));
    assert!(submit_res_needs_replacement(Some(1), 0));
    assert!(!submit_res_needs_replacement(Some(0), 0));
}

#[test]
fn pass_choice() {
    assert_eq!(choose_mode(true, true, true), (PostFxMode::Compute, None));
    let (m, msg) = choose_mode(true, true, false);
    assert_eq!(m, PostFxMode::Fragment);
    assert_eq!(msg.unwrap(), "compute path not applied: format lacks STORAGE_IMAGE feature, falling back to fragment");
    assert_eq!(choose_mode(true, false, true), (PostFxMode::Fragment, None));
    assert_eq!(choose_mode(false, true, true), (PostFxMode::Fragment, None));
    assert!(need_upscaled_image_for_extent((1920, 1080), (960, 540), 50));
    assert!(!need_upscaled_image_for_extent((1920, 1080), (960, 540), 44));
    assert!(!need_upscaled_image_for_extent((1920, 1080), (1920, 1080), 50));
}

fn record() -> SwapRecord {
    new_swap_record(9, 50, 44, (1920, 1080), (1920, 1080), 1.0f32.to_bits(), true)
}

#[test]
fn failing_swapchain_is_disabled_after_four_failures() {
    let mut t: KeyTable<SwapRecord> = KeyTable::new();
    swap_put(&mut t, 1, record());
    assert!(!swap_record_failure(&mut t, 1));
    assert!(!swap_record_failure(&mut t, 1));
    assert!(!swap_record_failure(&mut t, 1));
    assert!(!swap_is_disabled(&t, 1));
    assert!(swap_record_failure(&mut t, 1));
    assert!(swap_is_disabled(&t, 1));
    assert!(!swap_record_failure(&mut t, 1));
    swap_record_success(&mut t, 1);
    assert!(swap_is_disabled(&t, 1));
    assert!(!swap_record_failure(&mut t, 42));
    assert!(!swap_is_disabled(&t, 42));
}

#[test]
fn success_restarts_the_failure_count() {
    let mut t: KeyTable<SwapRecord> = KeyTable::new();
    swap_put(&mut t, 1, record());
    for _ in 0..3 {
        assert!(!swap_record_failure(&mut t, 1));
    }
    swap_record_success(&mut t, 1);
    for _ in 0..3 {
        assert!(!swap_record_failure(&mut t, 1));
    }
    assert!(!swap_is_disabled(&t, 1));
    assert!(swap_record_failure(&mut t, 1));
}

#[test]
fn device_teardown_forgets_its_swapchains() {
    let mut t: KeyTable<SwapRecord> = KeyTable::new();
    swap_put(&mut t, 1, record());
    let mut other = record();
    other.device = 3;
    swap_put(&mut t, 2, other);
    swap_put(&mut t, 5, record());
    let mut gone: Vec<u64> = swap_del_for_device(&mut t, 9).iter().map(|p| p.0).collect();
    gone.sort();
    assert_eq!(gone, vec![1, 5]);
    assert!(t.contains(2));
    assert!(!t.contains(1));
    assert!(!present_has_fx(true, &vec![1, 5], &t));
    assert!(present_has_fx(true, &vec![1, 2], &t));
    assert!(!present_has_fx(false, &vec![2], &t));
}

#[test]
fn pending_swapchains_wait_for_shaders() {
    let mut t: KeyTable<PendingInfo> = KeyTable::new();
    pending_put(&mut t, 4, PendingInfo { device: 1, format: 44, width: 800, height: 600 });
    assert!(retry_pending_registrations(&mut t, false).is_empty());
    assert!(t.contains(4));
    let r = retry_pending_registrations(&mut t, true);
    assert_eq!(r.len(), 1);
    assert_eq!(r[0].0, 4);
    assert!(t.is_empty());
}

#[test]
fn lazy_build_and_rebuilds() {
    assert_eq!(ensure_fx(true, 0), FxAction::Ready);
    assert_eq!(ensure_fx(false, 0), FxAction::Wait);
    assert_eq!(ensure_fx(false, 3), FxAction::Build);
    let mut rec = record();
    let frag = vec![1u32];
    let empty: Vec<u32> = vec![];
    assert_eq!(check_rebuild_pipeline(&rec, 0.5f32.to_bits(), PostFxMode::Compute, false, 1, &frag, &empty), RebuildAction::Full);
    assert_eq!(check_rebuild_pipeline(&rec, 1.0f32.to_bits(), PostFxMode::Compute, false, 1, &frag, &empty), RebuildAction::Keep);
    rec.fx = Some(FxInfo { mode: PostFxMode::Fragment, needs_history: false, submit_family: 0, dispatch_family: 0, gen: 1, history_init: false });
    let one = 1.0f32.to_bits();
    assert_eq!(check_rebuild_pipeline(&rec, one, PostFxMode::Compute, false, 1, &frag, &empty), RebuildAction::Full);
    assert_eq!(check_rebuild_pipeline(&rec, one, PostFxMode::Fragment, true, 1, &frag, &empty), RebuildAction::Full);
    assert_eq!(check_rebuild_pipeline(&rec, one, PostFxMode::Fragment, false, 2, &frag, &empty), RebuildAction::Pipeline);
    assert_eq!(check_rebuild_pipeline(&rec, one, PostFxMode::Fragment, false, 2, &empty, &frag), RebuildAction::Keep);
    assert_eq!(check_rebuild_pipeline(&rec, one, PostFxMode::Fragment, false, 1, &frag, &empty), RebuildAction::Keep);
    assert_eq!(spv_or_fail(vec![3], "compute"), Ok(vec![3]));
    assert_eq!(spv_or_fail(vec![], "compute"), Err("no spirv available for compute, postfx skipped until shaders ready".to_string()));
}

#[test]
fn dispatch_and_copies() {
    assert_eq!(dispatch_dims(1920, 1080, 8, 8), (240, 135));
    assert_eq!(dispatch_dims(1921, 1080, 16, 16), (121, 68));
    assert_eq!(dispatch_dims(5, 5, 0, 0), (4, 4));
    assert_eq!(write_to_swap((100, 50), (100, 50), true), SwapWrite::Copy(100, 50));
    assert_eq!(write_to_swap((50, 25), (100, 50), true), SwapWrite::Blit);
    assert_eq!(write_to_swap((50, 80), (100, 50), false), SwapWrite::ClampedCopy(50, 50));
    assert_eq!(find_mem_type(&vec![0x1, 0x6, 0x7], 0b110, 0x6), 1);
    assert_eq!(find_mem_type(&vec![0x1, 0x6, 0x7], 0b100, 0x6), 2);
    assert_eq!(find_mem_type(&vec![0x1], 0b1, 0x2), 0);
}

#[test]
fn instances_owners_and_queues() {
    let mut st = LayerState::new();
    insts_put(&mut st, 100, InstInfo { api_version: 4198400, gpdp2: false });
    insts_put(&mut st, 200, InstInfo { api_version: 4194304, gpdp2: true });
    assert_eq!(cache_owner(&mut st, 7, Some(100)), Some(100));
    assert_eq!(cache_owner(&mut st, 8, Some(200)), Some(200));
    assert_eq!(owner_cached(&st, 7), Some(100));
    assert_eq!(cache_owner(&mut st, 9, None), None);
    assert_eq!(owner_cached(&st, 9), None);
    assert!(!insts_del(&mut st, 100));
    assert_eq!(phys_owner_get(&st, 7), None);
    assert_eq!(phys_owner_get(&st, 8), Some(200));
    assert!(insts_del(&mut st, 200));
    queue_dev_put(&mut st, 55, QueueBinding { device: 3, family: 1 });
    assert_eq!(queue_dev_get(&st, 55), Some(QueueBinding { device: 3, family: 1 }));
    assert_eq!(queue_dev_get(&st, 56), None);
}

#[test]
fn proc_address_resolution() {
    assert_eq!(vk_hooked_symbol("vkQueuePresentKHR"), Some(VkHook::QueuePresent));
    assert_eq!(vk_hooked_symbol("vkCmdDraw"), None);
    assert!(null_ok_name("vkEnumerateInstanceVersion"));
    assert!(!null_ok_name("vkQueuePresentKHR"));
    assert_eq!(
        resolve_instance_proc(true, "vkCreateInstance", false),
        InstanceProc::Global(GlobalEntry::CreateInstance)
    );
    assert_eq!(resolve_instance_proc(true, "vkCreateDevice", false), InstanceProc::Null);
    assert_eq!(resolve_instance_proc(false, "vkCreateDevice", false), InstanceProc::Hook(VkHook::CreateDevice));
    assert_eq!(resolve_instance_proc(false, "vkCmdDraw", true), InstanceProc::Forward);
    assert_eq!(resolve_instance_proc(false, "vkCmdDraw", false), InstanceProc::Null);
    assert_eq!(resolve_device_proc("vkDestroySwapchainKHR", false), InstanceProc::Hook(VkHook::DestroySwapchain));
    assert_eq!(resolve_device_proc("vkCmdDraw", true), InstanceProc::Forward);
    assert_eq!(features2_symbol(true, 4194304), Some("vkGetPhysicalDeviceFeatures2KHR"));
    assert_eq!(features2_symbol(false, 4198400), Some("vkGetPhysicalDeviceFeatures2"));
    assert_eq!(features2_symbol(false, 4194304), None);
    assert_eq!(version_or_default(0), 4194304);
    assert_eq!(version_or_default(4198400), 4198400);
    assert!(app_has_gpdp2(&strings(&["VK_KHR_get_physical_device_properties2"])));
    assert!(!app_has_gpdp2(&strings(&["VK_KHR_surface"])));
}

#[test]
fn submissions_and_history() {
    let mut t: KeyTable<SwapRecord> = KeyTable::new();
    swap_put(&mut t, 1, record());
    assert!(swap_wants_postfx(&t, 1));
    assert!(!swap_wants_postfx(&t, 2));
    assert_eq!(submit_outcome(&mut t, 1, true, vec![10, 11], 99), (vec![99], None));
    for _ in 0..3 {
        assert_eq!(submit_outcome(&mut t, 1, false, vec![10], 99), (vec![10], None));
    }
    let (w, m) = submit_outcome(&mut t, 1, false, vec![10], 99);
    assert_eq!(w, vec![10]);
    assert!(m.is_some());
    assert!(!swap_wants_postfx(&t, 1));
    let mut fx = FxInfo { mode: PostFxMode::Compute, needs_history: true, submit_family: 0, dispatch_family: 1, gen: 1, history_init: false };
    assert!(take_history_init(&mut fx));
    assert!(!take_history_init(&mut fx));
}

#[test]
fn blit_and_storage_from_format_features() {
    assert_eq!(blit_choice(0x1C00, Some(0x3)), (true, true));
    assert_eq!(blit_choice(0x0C00, Some(0x1)), (true, false));
    assert_eq!(blit_choice(0x1C00, Some(0x2)), (false, true));
    assert_eq!(blit_choice(0x1400, Some(0x1)), (false, true));
    assert_eq!(blit_choice(0x1C00, None), (false, true));
    assert_eq!(blit_choice(0, None), (false, false));
    assert!(storage_format_ok(0x3));
    assert!(!storage_format_ok(0x1C01));
}
