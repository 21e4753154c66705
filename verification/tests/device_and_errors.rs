use graphicx::barrier::{AttachmentMode, BarrierDesc, BarrierFlags, BarrierPoint, ResourceStates};
use graphicx::device::{
    enable_debug_layer, select_adapter, select_feature_level, AdapterCandidate, AdapterInfo,
    DeviceConfig, DeviceType, FeatureLevelSupport, QueueType, SampleDesc, FEATURE_LEVEL_11_0,
    FEATURE_LEVEL_11_1, FEATURE_LEVEL_12_0, FEATURE_LEVEL_12_1,
};
use graphicx::engine::Engine;
use graphicx::error::Error;
use graphicx::frame::present_parameters;
use graphicx::timer::Timer;

#[test]
fn error_texts_are_stable() {
    assert_eq!(Error::AdapterNotFound.as_str(), "adapter not found");
    assert_eq!(Error::CreateDeviceFailed.as_str(), "failed to create a device");
    assert_eq!(Error::PresentSwapChainFailed.as_str(), "failed to present the swapchain");
    assert_eq!(Error::ResizeSwapChainFailed.as_str(), "failed to resize the swapchain");
    assert_eq!(Error::CreateFenceFailed.as_str(), "failed to create fence");
    assert_eq!(Error::SignalCommandQueueFailed.as_str(), "failed to signal command queue");
    assert_eq!(Error::SlotInFlight.as_str(), "ring slot still in flight");
    assert_eq!(Error::QueueNotDrained.as_str(), "submission queue not drained");
}

#[test]
fn barrier_desc_holds_slot_and_states() {
    let desc = BarrierDesc::new(2, ResourceStates::Present..ResourceStates::RenderTarget);
    assert_eq!(desc.index, 2);
    assert_eq!(desc.flags, BarrierFlags::none());
    assert_eq!(desc.states.start, ResourceStates::Present);
    assert_eq!(desc.states.end, ResourceStates::RenderTarget);
}

#[test]
fn barrier_flag_bits_are_distinct() {
    assert_eq!(BarrierFlags::none().bits, 0);
    assert_eq!(BarrierFlags::begin_only().bits, 1);
    assert_eq!(BarrierFlags::end_only().bits, 2);
}

#[test]
fn device_config_defaults_and_debug_layer() {
    let mut config = DeviceConfig::new();
    assert_eq!(config.feature_level_min, 0xb000);
    assert!(!config.enable_debug_layer);
    assert!(!config.prefer_warp);
    assert_eq!(config.buffer_count, 3);
    assert!(!config.vsync);
    enable_debug_layer(&mut config);
    assert!(config.enable_debug_layer);
    assert_eq!(config.buffer_count, 3);
}

#[test]
fn plain_descriptions_round_trip() {
    let info = graphicx::device::AdapterInfo {
        name: "test adapter".to_string(),
        vendor: 0x10de,
        device: 0x2204,
        video_memory: 1 << 30,
        device_type: DeviceType::DiscreteGpu,
    };
    assert_eq!(info.device_type, DeviceType::DiscreteGpu);
    assert_ne!(DeviceType::DiscreteGpu, DeviceType::VirtualGpu);
    assert_ne!(QueueType::Graphics, QueueType::Transfer);
    let sample = SampleDesc { count: 1, quality: 0 };
    assert_eq!(sample, SampleDesc { count: 1, quality: 0 });
    let attachment = graphicx::barrier::Attachment {
        states: AttachmentMode::Present..AttachmentMode::RenderTarget,
    };
    assert_eq!(attachment.states.start, AttachmentMode::Present);
    assert_ne!(BarrierPoint::Pre, BarrierPoint::Post);
}

fn candidate(
    name: &str,
    device_type: DeviceType,
    video_memory: usize,
    supports: bool,
) -> AdapterCandidate {
    AdapterCandidate {
        info: AdapterInfo {
            name: name.to_string(),
            vendor: 0,
            device: 0,
            video_memory,
            device_type,
        },
        supports_required_level: supports,
    }
}

#[test]
fn adapter_with_most_memory_wins() {
    let candidates = vec![
        candidate("small", DeviceType::DiscreteGpu, 1 << 28, true),
        candidate("software", DeviceType::VirtualGpu, 1 << 34, true),
        candidate("big", DeviceType::DiscreteGpu, 1 << 33, true),
        candidate("unsupported", DeviceType::DiscreteGpu, 1 << 35, false),
    ];
    assert_eq!(select_adapter(&candidates), Ok(2));
}

#[test]
fn adapter_tie_keeps_the_first() {
    let candidates = vec![
        candidate("first", DeviceType::DiscreteGpu, 1 << 30, true),
        candidate("second", DeviceType::DiscreteGpu, 1 << 30, true),
    ];
    assert_eq!(select_adapter(&candidates), Ok(0));
}

#[test]
fn no_eligible_adapter_is_reported() {
    assert_eq!(select_adapter(&vec![]), Err(Error::AdapterNotFound));
    let candidates = vec![
        candidate("software", DeviceType::VirtualGpu, 1 << 30, true),
        candidate("no memory", DeviceType::DiscreteGpu, 0, true),
        candidate("unsupported", DeviceType::DiscreteGpu, 1 << 30, false),
    ];
    assert_eq!(select_adapter(&candidates), Err(Error::AdapterNotFound));
}

#[test]
fn highest_supported_feature_level_wins() {
    let all = FeatureLevelSupport {
        level_12_1: true,
        level_12_0: true,
        level_11_1: true,
        level_11_0: true,
    };
    assert_eq!(select_feature_level(all), FEATURE_LEVEL_12_1);
    let up_to_12_0 = FeatureLevelSupport { level_12_1: false, ..all };
    assert_eq!(select_feature_level(up_to_12_0), FEATURE_LEVEL_12_0);
    let up_to_11_1 = FeatureLevelSupport { level_12_0: false, ..up_to_12_0 };
    assert_eq!(select_feature_level(up_to_11_1), FEATURE_LEVEL_11_1);
    let baseline = FeatureLevelSupport { level_11_1: false, ..up_to_11_1 };
    assert_eq!(select_feature_level(baseline), FEATURE_LEVEL_11_0);
    // A probe that reported nothing still lands on the default.
    let none = FeatureLevelSupport { level_11_0: false, ..baseline };
    assert_eq!(select_feature_level(none), FEATURE_LEVEL_11_0);
}

#[test]
fn present_parameters_follow_vsync_and_tearing() {
    assert_eq!(present_parameters(true, true), (1, false));
    assert_eq!(present_parameters(true, false), (1, false));
    assert_eq!(present_parameters(false, true), (0, true));
    assert_eq!(present_parameters(false, false), (0, false));
}

#[test]
fn engine_ticks_and_timer_runs_update() {
    let engine = Engine::default();
    engine.tick();
    let timer = Timer::new();
    let counter = std::cell::Cell::new(0u32);
    timer.tick(|| counter.set(counter.get() + 1));
    assert_eq!(counter.get(), 1);
}
