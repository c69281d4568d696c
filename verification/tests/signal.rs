use unixproc::sys::signal::Signal;

#[test]
fn test_signal_lookup_known_numbers() {
    assert_eq!(Signal::try_from_raw(1), Some(Signal::SIGHUP));
    assert_eq!(Signal::try_from_raw(2), Some(Signal::SIGINT));
    assert_eq!(Signal::try_from_raw(5), Some(Signal::SIGTRAP));
    assert_eq!(Signal::try_from_raw(9), Some(Signal::SIGKILL));
    assert_eq!(Signal::try_from_raw(19), Some(Signal::SIGSTOP));
    assert_eq!(Signal::try_from_raw(31), Some(Signal::SIGSYS));
}

#[test]
fn test_signal_lookup_unknown_numbers() {
    assert_eq!(Signal::try_from_raw(0), None);
    assert_eq!(Signal::try_from_raw(32), None);
    assert_eq!(Signal::try_from_raw(-1), None);
    assert_eq!(Signal::try_from_raw(0x85), None);
}

#[test]
fn test_signal_numbers_round_trip() {
    let signals = vec![
        Signal::SIGHUP,
        Signal::SIGINT,
        Signal::SIGTRAP,
        Signal::SIGCHLD,
        Signal::SIGSYS,
    ];
    for sig in signals {
        assert_eq!(Signal::try_from_raw(sig.as_raw()), Some(sig));
    }
}
