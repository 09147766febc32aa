use btmanager::{device_category, signal_level, signal_quality, DeviceCategory, SignalQuality};

#[test]
fn category_follows_the_class_bits_in_priority_order() {
    assert_eq!(device_category(0x0020_0000), DeviceCategory::Audio);
    assert_eq!(device_category(0x0000_0400), DeviceCategory::Imaging);
    assert_eq!(device_category(0x0000_0200), DeviceCategory::Printer);
    assert_eq!(device_category(0x0000_0100), DeviceCategory::Peripheral);
    assert_eq!(device_category(0), DeviceCategory::Generic);
    // The audio bit wins over every later test.
    assert_eq!(device_category(0x0020_0400), DeviceCategory::Audio);
    assert_eq!(device_category(0x0000_0600), DeviceCategory::Imaging);
}

#[test]
fn quality_buckets_match_the_thresholds() {
    assert_eq!(signal_quality(-40), SignalQuality::Excellent);
    assert_eq!(signal_quality(-50), SignalQuality::Excellent);
    assert_eq!(signal_quality(-51), SignalQuality::Good);
    assert_eq!(signal_quality(-60), SignalQuality::Good);
    assert_eq!(signal_quality(-61), SignalQuality::Fair);
    assert_eq!(signal_quality(-70), SignalQuality::Fair);
    assert_eq!(signal_quality(-71), SignalQuality::Weak);
    assert_eq!(signal_quality(-80), SignalQuality::Weak);
    assert_eq!(signal_quality(-81), SignalQuality::Poor);
}

#[test]
fn level_is_the_shifted_strength_clamped_to_the_scale() {
    assert_eq!(signal_level(-100), 0);
    assert_eq!(signal_level(-130), 0);
    assert_eq!(signal_level(0), 100);
    assert_eq!(signal_level(20), 100);
    assert_eq!(signal_level(-55), 45);
}
