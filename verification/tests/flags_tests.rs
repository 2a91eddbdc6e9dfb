use edp::flags::DistributionFlags;

#[test]
fn test_mandatory_flags() {
    let flags = DistributionFlags::default_otp26();
    assert!(flags.has_mandatory_otp26());
    assert!(flags.has(DistributionFlags::EXTENDED_REFERENCES));
    assert!(flags.has(DistributionFlags::UTF8_ATOMS));
    assert!(flags.has(DistributionFlags::HANDSHAKE_23));
    assert!(flags.has(DistributionFlags::V4_NC));
    assert!(flags.has(DistributionFlags::UNLINK_ID));
}

#[test]
fn test_flag_operations() {
    let mut flags = DistributionFlags::new(0);
    assert!(!flags.has(DistributionFlags::PUBLISHED));

    flags.insert(DistributionFlags::PUBLISHED);
    assert!(flags.has(DistributionFlags::PUBLISHED));

    flags.remove(DistributionFlags::PUBLISHED);
    assert!(!flags.has(DistributionFlags::PUBLISHED));
}

#[test]
fn test_default_has_optional_features() {
    let flags = DistributionFlags::default();
    assert!(flags.has(DistributionFlags::FRAGMENTS));
    assert!(flags.has(DistributionFlags::SPAWN));
    assert!(flags.has(DistributionFlags::ALIAS));
    assert!(flags.has(DistributionFlags::DIST_MONITOR));
    assert!(flags.has(DistributionFlags::DIST_MONITOR_NAME));
    assert!(flags.has(DistributionFlags::PUBLISHED));
}

#[test]
fn test_default_hidden_not_published() {
    let flags = DistributionFlags::default_hidden();
    assert!(flags.has(DistributionFlags::FRAGMENTS));
    assert!(!flags.has(DistributionFlags::PUBLISHED));
}

#[test]
fn test_flag_values_and_intersection() {
    assert_eq!(DistributionFlags::default_otp26().bits(), 0x834_0B07_4FBD);
    assert_eq!(DistributionFlags::default_hidden().bits(), 0x834_0B07_4FBC);
    let a = DistributionFlags::new(0b1100);
    let b = DistributionFlags::new(0b1010);
    assert_eq!(a.intersection(b).bits(), 0b1000);
    assert!(!DistributionFlags::new(0).has_mandatory_otp26());
    assert!(DistributionFlags::new(DistributionFlags::MANDATORY_OTP26).has_mandatory_otp26());
    let from: u64 = DistributionFlags::new(7).into();
    assert_eq!(from, 7);
}
