use octane::device::Device;
use octane::precision::{with_autocast, AutocastContext, Precision, ScaleSchedule, ScaleStep};

#[test]
fn test_precision_properties() {
    assert!(!Precision::F32.is_reduced());
    assert!(Precision::F16.is_reduced());
    assert!(Precision::BF16.is_reduced());

    assert_eq!(Precision::F32.bytes_per_element(), 4);
    assert_eq!(Precision::F16.bytes_per_element(), 2);
    assert_eq!(Precision::BF16.bytes_per_element(), 2);
}

#[test]
fn test_autocast_context() {
    let ctx = AutocastContext::new(Precision::F16);
    assert!(ctx.is_enabled());
    assert_eq!(ctx.compute_precision(), Precision::F16);
    assert_eq!(ctx.master_precision(), Precision::F32);

    let disabled = AutocastContext::disabled();
    assert!(!disabled.is_enabled());
}

#[test]
fn precision_names_and_default() {
    assert_eq!(Precision::F32.name(), "FP32");
    assert_eq!(Precision::F16.name(), "FP16");
    assert_eq!(Precision::BF16.name(), "BF16");
    assert_eq!(Precision::default(), Precision::F32);
}

#[test]
fn autocast_keeps_listed_ops_in_full_precision() {
    let ctx = AutocastContext::new(Precision::F16);
    assert_eq!(ctx.cast_target_for_op("softmax"), Some(Precision::F32));
    assert_eq!(ctx.cast_target_for_op("matmul"), Some(Precision::F16));
    // Names are compared after lower-casing.
    assert_eq!(ctx.cast_target_for_op("SoftMax"), Some(Precision::F32));
    assert_eq!(ctx.cast_target_for_op("final_LAYER_NORM"), Some(Precision::F32));
    assert_eq!(ctx.compute_cast_target(), Some(Precision::F16));
}

#[test]
fn disabled_autocast_never_casts() {
    let ctx = AutocastContext::new(Precision::F32);
    assert!(!ctx.is_enabled());
    assert_eq!(ctx.cast_target_for_op("softmax"), None);
    assert_eq!(ctx.compute_cast_target(), None);
}

#[test]
fn added_fp32_op_is_honoured() {
    let mut ctx = AutocastContext::new(Precision::BF16);
    assert_eq!(ctx.cast_target_for_op("attention"), Some(Precision::BF16));
    ctx.add_fp32_op("attention");
    assert_eq!(ctx.cast_target_for_op("self_attention"), Some(Precision::F32));
    // Earlier entries still hold, and master weights stay in full precision.
    assert_eq!(ctx.cast_target_for_op("softmax"), Some(Precision::F32));
    assert_eq!(ctx.master_precision(), Precision::F32);
    assert_eq!(ctx.clone().cast_target_for_lowered("attention"), Some(Precision::F32));
}

#[test]
fn lowered_names_are_matched_as_given() {
    let ctx = AutocastContext::new(Precision::F16);
    assert_eq!(ctx.cast_target_for_lowered("softmax"), Some(Precision::F32));
    assert_eq!(ctx.cast_target_for_lowered("cross_entropy_loss"), Some(Precision::F32));
    assert_eq!(ctx.cast_target_for_lowered("matmul"), Some(Precision::F16));
    // Text that is not lower-case is taken as it stands.
    assert_eq!(ctx.cast_target_for_lowered("SoftMax"), Some(Precision::F16));
    assert_eq!(AutocastContext::disabled().cast_target_for_lowered("softmax"), None);
    assert_eq!(AutocastContext::disabled().master_precision(), Precision::F32);
}

#[test]
fn with_autocast_returns_closure_result() {
    let ctx = AutocastContext::new(Precision::F16);
    let r: Result<u32, String> = with_autocast(&ctx, || Ok(41 + 1));
    assert_eq!(r, Ok(42));
}

#[test]
fn device_kinds() {
    assert!(!Device::cpu().is_gpu());
    assert!(Device::m4_metal().is_gpu());
    assert!(Device::cuda(1).is_gpu());
    assert_eq!(Device::default(), Device::Cpu);
    assert_eq!(Device::cpu().label(), "CPU");
    assert_eq!(Device::m4_metal().label(), "Metal (Apple Silicon)");
    assert_eq!(Device::cuda(3).label(), "CUDA:3");
}

#[test]
fn scale_schedule_backs_off_and_grows() {
    let mut s = ScaleSchedule::new(Precision::F16);
    assert!(s.is_enabled());
    assert_eq!(s.growth_interval(), 2000);
    // Overflow: back off, count it.
    assert_eq!(s.update(true), ScaleStep::Backoff);
    assert_eq!(s.overflow_count(), 1);
    // 2001 clean steps: the 2000th grows the scale.
    let mut grows = 0;
    for i in 0..2001 {
        let step = s.update(false);
        if step == ScaleStep::Grow {
            grows += 1;
            assert_eq!(i, 1999);
        }
    }
    assert_eq!(grows, 1);
    assert_eq!(s.growth_counter(), 1);
}

#[test]
fn scale_schedule_off_for_full_precision() {
    let mut s = ScaleSchedule::new(Precision::F32);
    assert!(!s.is_enabled());
    assert_eq!(s.update(true), ScaleStep::Unchanged);
    assert_eq!(s.overflow_count(), 0);
    let mut t = ScaleSchedule::new(Precision::BF16).with_growth_interval(3);
    t.update(false);
    t.update(true);
    assert_eq!(t.state(), (0, 1));
    let mut u = ScaleSchedule::new(Precision::F16);
    u.load_state(0, 1);
    assert_eq!(u.overflow_count(), 1);
    u.set_enabled(false);
    assert!(!u.is_enabled());
}
