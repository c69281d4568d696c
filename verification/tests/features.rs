use unixproc::features::{
    atomic_cloexec_of, kernel_version, parse_kernel_version, socket_atomic_cloexec, VERS_2_6_18,
    VERS_2_6_27, VERS_2_6_28, VERS_3, VERS_UNKNOWN,
};

#[test]
pub fn test_parsing_kernel_version() {
    assert!(kernel_version() > 0);
}

#[test]
fn test_parse_modern_release() {
    assert_eq!(parse_kernel_version(&b"5.15.0-91-generic".to_vec()), VERS_3);
    assert_eq!(parse_kernel_version(&b"3.0.0".to_vec()), VERS_3);
}

#[test]
fn test_parse_feature_thresholds() {
    assert_eq!(parse_kernel_version(&b"2.6.27".to_vec()), VERS_2_6_27);
    assert_eq!(parse_kernel_version(&b"2.6.28-rc1".to_vec()), VERS_2_6_28);
    assert_eq!(parse_kernel_version(&b"2.6.26".to_vec()), VERS_2_6_18);
    assert_eq!(parse_kernel_version(&b"2.6.18".to_vec()), VERS_2_6_18);
}

#[test]
fn test_parse_out_of_range_releases() {
    assert_eq!(parse_kernel_version(&b"2.7.0".to_vec()), VERS_UNKNOWN);
    assert_eq!(parse_kernel_version(&b"2.4.31".to_vec()), VERS_UNKNOWN);
    assert_eq!(parse_kernel_version(&b"1.2.3".to_vec()), VERS_UNKNOWN);
    assert_eq!(parse_kernel_version(&b"0".to_vec()), VERS_UNKNOWN);
}

#[test]
fn test_parse_odd_releases() {
    // an empty or unreadable release classifies as unknown
    assert_eq!(parse_kernel_version(&b"".to_vec()), VERS_UNKNOWN);
    assert_eq!(parse_kernel_version(&b"linux".to_vec()), VERS_UNKNOWN);
    // parsing stops at the first byte that is no digit and no separator
    assert_eq!(parse_kernel_version(&b"2.6.27abc.9".to_vec()), VERS_2_6_27);
    // a missing patch field reads as patch level zero
    assert_eq!(parse_kernel_version(&b"2.6".to_vec()), VERS_2_6_18);
    // a huge patch number saturates and still ranks into the newest era
    assert_eq!(
        parse_kernel_version(&b"2.6.99999999999999999999999999".to_vec()),
        VERS_2_6_28
    );
}

#[test]
fn test_atomic_cloexec_threshold() {
    assert!(!atomic_cloexec_of(VERS_UNKNOWN));
    assert!(!atomic_cloexec_of(VERS_2_6_18));
    assert!(atomic_cloexec_of(VERS_2_6_27));
    assert!(atomic_cloexec_of(VERS_2_6_28));
    assert!(atomic_cloexec_of(VERS_3));
}

#[test]
fn test_socket_atomic_cloexec_consistent() {
    // on any kernel this build runs on, the probe agrees with the rank
    assert_eq!(socket_atomic_cloexec(), kernel_version() >= VERS_2_6_27);
}
