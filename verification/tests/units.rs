use framesync::device::{
    select_suitable_physical_device, DeviceKind, PhysicalDeviceInfo, QueueFamilyInfo,
};
use framesync::errors::GpuError;
use framesync::features::DeviceFeatures;
use framesync::ray_tracing::{count_shader_groups, VkRTShaderGroup};
use framesync::ring::{timestamp_delta_nanos, FrameRing, SlotStatus};
use framesync::stats::{BoundedLog, FrameStats, StatsDisplayMode};
use framesync::swapchain::{choose_surface_format, SurfaceFormat, SwapchainState, SwapchainPlan};
use framesync::utils::{compute_aligned_size, compute_aligned_size_u64};
use framesync::shader::{read_shader_from_bytes, ShaderDecodeError};
use framesync::version::VkVersion;

#[test]
fn version_constructors_fill_the_fields() {
    let v = VkVersion::new(1, 2, 3, 4);
    assert_eq!((v.variant, v.major, v.minor, v.patch), (1, 2, 3, 4));

    let v = VkVersion::from_major(2);
    assert_eq!((v.variant, v.major, v.minor, v.patch), (0, 2, 0, 0));

    let v = VkVersion::from_major_minor(1, 3);
    assert_eq!((v.variant, v.major, v.minor, v.patch), (0, 1, 3, 0));

    let v = VkVersion::default();
    assert_eq!((v.variant, v.major, v.minor, v.patch), (0, 0, 0, 0));
}

#[test]
fn version_packing_matches_the_bit_layout() {
    assert_eq!(VkVersion::from_major_minor(1, 3).make_api_version(), 0x0040_3000);
    assert_eq!(VkVersion::new(1, 2, 3, 4).make_api_version(), 0x2080_3004);
    assert_eq!(VkVersion::from_major(1).make_api_version(), 0x0040_0000);
}

#[test]
fn feature_compatibility_checks_each_toggle() {
    let supported = DeviceFeatures {
        dynamic_rendering: true,
        synchronization2: true,
        ..Default::default()
    };
    let required = DeviceFeatures {
        dynamic_rendering: true,
        ..Default::default()
    };
    assert!(supported.is_compatible_with(&required));

    let too_much = DeviceFeatures {
        ray_tracing_pipeline: true,
        ..required
    };
    assert!(!supported.is_compatible_with(&too_much));

    // No requirements at all are always satisfied.
    assert!(DeviceFeatures::default().is_compatible_with(&DeviceFeatures::default()));
}

#[test]
fn aligned_size_rounds_up_to_the_alignment() {
    assert_eq!(compute_aligned_size(13, 8), 16);
    assert_eq!(compute_aligned_size(16, 8), 16);
    assert_eq!(compute_aligned_size(0, 16), 0);
    assert_eq!(compute_aligned_size(1, 1), 1);
    assert_eq!(compute_aligned_size(257, 256), 512);

    assert_eq!(compute_aligned_size_u64(13, 8), 16);
    assert_eq!(compute_aligned_size_u64(1 << 40, 4096), 1 << 40);
    assert_eq!(compute_aligned_size_u64((1 << 40) + 1, 4096), (1 << 40) + 4096);
}

#[test]
fn aligned_size_at_the_upper_boundary() {
    // The largest size the contract admits for this alignment.
    assert_eq!(compute_aligned_size(u32::MAX - 7, 8), u32::MAX - 7);
    assert_eq!(compute_aligned_size_u64(u64::MAX - 7, 8), u64::MAX - 7);
}

#[test]
fn bounded_log_of_size_one_keeps_the_newest() {
    let mut log: BoundedLog<u64> = BoundedLog::new(1);
    log.push(1);
    log.push(2);
    assert_eq!(*log.entries(), vec![2]);
}

#[test]
fn stats_display_mode_cycles() {
    assert_eq!(StatsDisplayMode::Hidden.next(), StatsDisplayMode::Basic);
    assert_eq!(StatsDisplayMode::Basic.next(), StatsDisplayMode::Full);
    assert_eq!(StatsDisplayMode::Full.next(), StatsDisplayMode::Hidden);
}

#[test]
fn bounded_log_drops_the_oldest_entry() {
    let mut log: BoundedLog<u64> = BoundedLog::new(3);
    for v in 1..=5u64 {
        log.push(v);
    }
    assert_eq!(log.len(), 3);
    assert_eq!(*log.entries(), vec![3, 4, 5]);
}

#[test]
fn stats_tick_derives_cpu_time_and_logs_milliseconds() {
    let mut s = FrameStats::default();
    s.set_frame_time(10_000_000);
    s.set_gpu_time(2_000_000);
    s.tick();
    // The first tick still accounts against the zero previous frame.
    assert_eq!(s.cpu_time, 0);
    assert_eq!(s.total_frame_count, 1);

    s.set_frame_time(20_000_000);
    s.tick();
    // previous_frame_time is now 10 ms; the GPU took 2 ms of it.
    assert_eq!(s.cpu_time, 8_000_000);
    assert_eq!(s.total_frame_count, 2);
    assert_eq!(*s.frame_time_ms_log.entries(), vec![0, 10]);
    assert_eq!(*s.cpu_time_ms_log.entries(), vec![0, 8]);
    assert_eq!(*s.gpu_time_ms_log.entries(), vec![2, 2]);
}

#[test]
fn stats_close_the_second_window() {
    let mut s = FrameStats::default();
    s.set_frame_time(600_000_000);
    s.tick();
    assert_eq!(s.fps_counter, 0);
    assert_eq!(s.frame_count, 1);

    s.set_frame_time(600_000_000);
    s.tick();
    // 1.2 s accumulated: the window closes at two frames.
    assert_eq!(s.fps_counter, 2);
    assert_eq!(s.frame_count, 0);
    assert_eq!(s.timer, 200_000_000);
}

#[test]
fn frame_statistics_report_the_current_values() {
    let mut s = FrameStats::default();
    s.set_frame_time(10_000_000);
    s.set_gpu_time(2_000_000);
    s.tick();
    s.set_frame_time(10_000_000);
    s.tick();
    let r = s.current_frame_statistics();
    assert_eq!(r.cpu_time_nanos, 8_000_000);
    assert_eq!(r.gpu_time_nanos, 2_000_000);
    assert_eq!(r.frame_index, 2);
}

fn family(index: u32, graphics: bool, present: bool) -> QueueFamilyInfo {
    QueueFamilyInfo {
        index,
        queue_count: 1,
        supports_graphics: graphics,
        supports_compute: graphics,
        supports_present: present,
        timestamp_valid_bits: if graphics { 64 } else { 0 },
    }
}

fn device(name: &str, families: Vec<QueueFamilyInfo>, extensions: Vec<String>) -> PhysicalDeviceInfo {
    device_of_kind(name, DeviceKind::DiscreteGpu, families, extensions)
}

fn device_of_kind(
    name: &str,
    kind: DeviceKind,
    families: Vec<QueueFamilyInfo>,
    extensions: Vec<String>,
) -> PhysicalDeviceInfo {
    PhysicalDeviceInfo {
        name: name.to_string(),
        kind,
        queue_families: families,
        supported_extensions: extensions,
        supported_surface_formats: vec![SurfaceFormat {
            format: 44,
            color_space: 0,
        }],
        supported_present_mode_count: 2,
        supported_device_features: DeviceFeatures {
            dynamic_rendering: true,
            synchronization2: true,
            ..Default::default()
        },
    }
}

#[test]
fn selection_picks_the_first_suitable_device() {
    let swapchain_ext = vec!["VK_KHR_swapchain".to_string()];
    let devices = vec![
        // No present support at all.
        device("headless", vec![family(0, true, false)], swapchain_ext.clone()),
        // Suitable: graphics on family 0, present on family 1.
        device(
            "good",
            vec![family(0, true, false), family(1, false, true)],
            swapchain_ext.clone(),
        ),
    ];
    let required = DeviceFeatures {
        dynamic_rendering: true,
        ..Default::default()
    };
    let sel = select_suitable_physical_device(&devices, &swapchain_ext, &required).unwrap();
    assert_eq!(sel.device_index, 1);
    assert_eq!(sel.graphics_family.index, 0);
    assert_eq!(sel.present_family.index, 1);
}

#[test]
fn selection_prefers_discrete_hardware() {
    let swapchain_ext = vec!["VK_KHR_swapchain".to_string()];
    let devices = vec![
        device_of_kind(
            "integrated",
            DeviceKind::IntegratedGpu,
            vec![family(0, true, true)],
            swapchain_ext.clone(),
        ),
        device_of_kind(
            "discrete",
            DeviceKind::DiscreteGpu,
            vec![family(0, true, true)],
            swapchain_ext.clone(),
        ),
    ];
    let sel = select_suitable_physical_device(&devices, &swapchain_ext, &DeviceFeatures::default())
        .unwrap();
    // The later discrete device beats the earlier integrated one.
    assert_eq!(sel.device_index, 1);

    // With no discrete device suitable, the integrated one is chosen.
    let devices = vec![
        device_of_kind(
            "software",
            DeviceKind::Other,
            vec![family(0, true, true)],
            swapchain_ext.clone(),
        ),
        device_of_kind(
            "integrated",
            DeviceKind::IntegratedGpu,
            vec![family(0, true, true)],
            swapchain_ext.clone(),
        ),
    ];
    let sel = select_suitable_physical_device(&devices, &swapchain_ext, &DeviceFeatures::default())
        .unwrap();
    assert_eq!(sel.device_index, 1);
}

#[test]
fn selection_fails_when_nothing_fits() {
    let swapchain_ext = vec!["VK_KHR_swapchain".to_string()];
    let devices = vec![device("headless", vec![family(0, true, false)], swapchain_ext.clone())];
    let r = select_suitable_physical_device(&devices, &swapchain_ext, &DeviceFeatures::default());
    assert!(r.is_none());

    // A missing extension also disqualifies.
    let devices = vec![device(
        "no-swapchain",
        vec![family(0, true, true)],
        vec![],
    )];
    let r = select_suitable_physical_device(&devices, &swapchain_ext, &DeviceFeatures::default());
    assert!(r.is_none());
}

#[test]
fn extension_query_compares_names() {
    let d = device(
        "dev",
        vec![family(0, true, true)],
        vec!["VK_KHR_swapchain".to_string(), "VK_KHR_ray_tracing_pipeline".to_string()],
    );
    assert!(d.supports_extensions(&vec!["VK_KHR_swapchain".to_string()]));
    assert!(!d.supports_extensions(&vec!["VK_KHR_video_queue".to_string()]));
    assert!(d.supports_extensions(&vec![]));
}

#[test]
fn shader_groups_are_counted_by_kind() {
    let groups = vec![
        VkRTShaderGroup::RayGen,
        VkRTShaderGroup::Miss,
        VkRTShaderGroup::Miss,
        VkRTShaderGroup::ClosestHit,
    ];
    let info = count_shader_groups(&groups);
    assert_eq!(info.group_count, 4);
    assert_eq!(info.raygen_shader_count, 1);
    assert_eq!(info.miss_shader_count, 2);
    assert_eq!(info.hit_shader_count, 1);

    let empty = count_shader_groups(&vec![]);
    assert_eq!(empty.group_count, 0);
}

#[test]
fn ring_slots_follow_the_frame_counter() {
    let mut ring = FrameRing::new(2);
    assert_eq!(ring.slot_status(0), SlotStatus::Pending);
    assert_eq!(ring.advance(), 0);
    assert_eq!(ring.advance(), 1);
    assert_eq!(ring.advance(), 0);
    assert_eq!(ring.frames_begun_count(), 3);

    ring.wait_for_slot_ready(0, true).unwrap();
    assert_eq!(ring.slot_status(0), SlotStatus::Ready);
    ring.reset_slot(0);
    assert_eq!(ring.slot_status(0), SlotStatus::Armed);
    ring.mark_submitted(0);
    assert_eq!(ring.slot_status(0), SlotStatus::Pending);

    assert_eq!(ring.wait_for_slot_ready(1, false), Err(GpuError::DeviceLost));
}

#[test]
fn timestamp_deltas_clamp_at_zero() {
    assert_eq!(timestamp_delta_nanos(3, 5), 2);
    assert_eq!(timestamp_delta_nanos(5, 3), 0);
    assert_eq!(timestamp_delta_nanos(7, 7), 0);
}

#[test]
fn surface_format_choice_prefers_the_request() {
    let hdr = SurfaceFormat {
        format: 64,
        color_space: 12,
    };
    let srgb = SurfaceFormat {
        format: 44,
        color_space: 0,
    };
    let supported = vec![srgb, hdr];
    assert_eq!(choose_surface_format(&supported, hdr), hdr);

    let unsupported = SurfaceFormat {
        format: 1000,
        color_space: 5,
    };
    assert_eq!(choose_surface_format(&supported, unsupported), srgb);
}

#[test]
fn swapchain_adoption_refuses_single_buffering() {
    let plan = SwapchainPlan {
        image_count: 3,
        width: 800,
        height: 600,
        format: SurfaceFormat {
            format: 44,
            color_space: 0,
        },
    };
    assert!(SwapchainState::from_creation(&plan, 1).is_none());
    let s = SwapchainState::from_creation(&plan, 4).unwrap();
    assert_eq!(s.image_count, 4);
    assert_eq!((s.width, s.height), (800, 600));
}

#[test]
fn shader_decoding_accepts_both_byte_orders() {
    // Canonical order: magic, then one word.
    let bytes = [0x03, 0x02, 0x23, 0x07, 0x78, 0x56, 0x34, 0x12];
    assert_eq!(
        read_shader_from_bytes(&bytes),
        Ok(vec![0x0723_0203, 0x1234_5678])
    );

    // Opposite order: every word is swapped back.
    let bytes = [0x07, 0x23, 0x02, 0x03, 0x12, 0x34, 0x56, 0x78];
    assert_eq!(
        read_shader_from_bytes(&bytes),
        Ok(vec![0x0723_0203, 0x1234_5678])
    );

    // A length that is not a whole number of words.
    assert_eq!(
        read_shader_from_bytes(&[0x03, 0x02, 0x23]),
        Err(ShaderDecodeError::NotWordAligned)
    );

    // No magic number.
    assert_eq!(read_shader_from_bytes(&[]), Err(ShaderDecodeError::MissingMagic));
    assert_eq!(
        read_shader_from_bytes(&[1, 2, 3, 4]),
        Err(ShaderDecodeError::MissingMagic)
    );
}

#[test]
fn gpu_error_fatality() {
    assert!(GpuError::DeviceLost.is_fatal());
    assert!(!GpuError::OutOfMemory.is_fatal());
}
