use festerm::rendering::{
    eligible, install_from_environment, origin_uniform, Backend, DeviceType, InvalidTimings,
    PaintOutcome, PaintResult, PainterDecision, PainterSetting, PainterStatus, TextureFormat,
    TimingConfig,
};

#[test]
fn direct2d_selection_preserves_hardware_other_backends_and_srgb() {
    for device in [
        DeviceType::DiscreteGpu,
        DeviceType::IntegratedGpu,
        DeviceType::VirtualGpu,
        DeviceType::Other,
    ] {
        assert!(!eligible(device, Backend::Dx12, TextureFormat::Bgra8Unorm));
    }
    for backend in [Backend::Vulkan, Backend::Gl, Backend::Metal] {
        assert!(!eligible(
            DeviceType::Cpu,
            backend,
            TextureFormat::Bgra8Unorm
        ));
    }
    for (format, supported) in [
        (TextureFormat::Bgra8Unorm, true),
        (TextureFormat::Rgba8Unorm, true),
        (TextureFormat::Bgra8UnormSrgb, false),
        (TextureFormat::Rgba16Float, false),
    ] {
        assert_eq!(eligible(DeviceType::Cpu, Backend::Dx12, format), supported);
    }
}

#[test]
fn direct2d_timing_gate_requires_explicit_valid_values() {
    assert_eq!(
        TimingConfig::from_environment(None),
        Ok(TimingConfig::Disabled)
    );
    assert_eq!(
        TimingConfig::from_environment(Some("0")),
        Ok(TimingConfig::Disabled)
    );
    assert_eq!(
        TimingConfig::from_environment(Some("1")),
        Ok(TimingConfig::EveryFrame)
    );
    assert_eq!(
        TimingConfig::from_environment(Some("120")),
        Ok(TimingConfig::EveryNthFrame(120))
    );
    assert!(TimingConfig::from_environment(Some("2"))
        .unwrap()
        .should_log(4));
    assert!(!TimingConfig::from_environment(Some("2"))
        .unwrap()
        .should_log(3));
    assert!(TimingConfig::from_environment(Some("abc")).is_err());
    assert!(TimingConfig::from_environment(Some("-1")).is_err());
}

#[test]
fn timing_values_are_read_like_numbers() {
    assert_eq!(
        TimingConfig::from_environment(Some("")),
        Ok(TimingConfig::Disabled)
    );
    assert_eq!(
        TimingConfig::from_environment(Some("+7")),
        Ok(TimingConfig::EveryNthFrame(7))
    );
    assert_eq!(
        TimingConfig::from_environment(Some("18446744073709551615")),
        Ok(TimingConfig::EveryNthFrame(u64::MAX))
    );
    for invalid in ["18446744073709551616", "+", "+1", "01", "00", " 2", "2 ", "2.0"] {
        let expected = Err(InvalidTimings);
        assert_eq!(TimingConfig::from_environment(Some(invalid)), expected);
    }
    assert_eq!(
        InvalidTimings.message(),
        "FESTERM_DIRECT2D_TIMINGS expects 0, 1, or an integer interval >= 2"
    );
}

#[test]
fn timings_are_logged_as_configured() {
    assert!(!TimingConfig::Disabled.enabled());
    assert!(TimingConfig::EveryFrame.enabled());
    assert!(!TimingConfig::Disabled.should_log(0));
    assert!(TimingConfig::EveryFrame.should_log(17));
    assert!(TimingConfig::EveryNthFrame(3).should_log(9));
    assert!(TimingConfig::EveryNthFrame(0).should_log(0));
    assert!(!TimingConfig::EveryNthFrame(0).should_log(5));
}

#[test]
fn the_painter_is_installed_only_where_everything_fits() {
    let cpu = Some((DeviceType::Cpu, Backend::Dx12, TextureFormat::Bgra8Unorm));
    let gpu = Some((
        DeviceType::DiscreteGpu,
        Backend::Dx12,
        TextureFormat::Bgra8Unorm,
    ));
    let decide = |setting, adapter, supported| install_from_environment(setting, adapter, supported);
    assert_eq!(
        decide(PainterSetting::Unset, cpu, true),
        PainterDecision::NotRequested
    );
    assert_eq!(
        decide(PainterSetting::Value("0"), cpu, true),
        PainterDecision::NotRequested
    );
    assert_eq!(
        decide(PainterSetting::Value("yes"), cpu, true),
        PainterDecision::InvalidSetting
    );
    assert_eq!(
        decide(PainterSetting::NotUnicode, cpu, true),
        PainterDecision::InvalidSetting
    );
    assert_eq!(
        decide(PainterSetting::Value("1"), None, true),
        PainterDecision::NoRenderer
    );
    assert_eq!(
        decide(PainterSetting::Value("1"), gpu, true),
        PainterDecision::NotEligible
    );
    assert_eq!(
        decide(PainterSetting::Value("1"), cpu, false),
        PainterDecision::UnsupportedPlatform
    );
    assert_eq!(
        decide(PainterSetting::Value("1"), cpu, true),
        PainterDecision::Install
    );
}

#[test]
fn the_origin_is_sixteen_little_endian_bytes() {
    assert_eq!(
        origin_uniform(0x0403_0201, 258),
        vec![1, 2, 3, 4, 2, 1, 0, 0, 0, 0, 0, 0, 0, 0, 0, 0]
    );
}

#[test]
fn the_first_failure_takes_the_painter_out_of_use() {
    let mut status = PainterStatus::new();
    let every = TimingConfig::EveryNthFrame(2);
    assert_eq!(
        status.painted(PaintResult::Painted, every),
        PaintOutcome::Show {
            frame: 1,
            log: false
        }
    );
    assert_eq!(
        status.painted(PaintResult::Unsupported, every),
        PaintOutcome::UseDefault
    );
    assert_eq!(
        status.painted(PaintResult::Painted, every),
        PaintOutcome::Show {
            frame: 2,
            log: true
        }
    );
    assert!(status.active);
    assert_eq!(
        status.painted(PaintResult::Failed("lost".to_owned()), every),
        PaintOutcome::RemovePainter
    );
    assert_eq!(
        status.painted(PaintResult::Failed("again".to_owned()), every),
        PaintOutcome::RemovePainter
    );
    assert!(!status.active);
    assert_eq!(status.first_failure.as_deref(), Some("lost"));
    assert_eq!(status.frames, 2);
}

#[test]
fn a_poisoned_painter_is_removed() {
    let mut status = PainterStatus::new();
    assert_eq!(
        status.painted(PaintResult::Poisoned, TimingConfig::Disabled),
        PaintOutcome::RemovePainter
    );
    assert!(!status.active);
    assert_eq!(status.first_failure, None);
}
