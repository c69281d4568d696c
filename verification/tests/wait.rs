use unixproc::errno::Errno;
use unixproc::sys::signal::Signal;
use unixproc::sys::wait::{
    continued, decode_wait_result, dumped_core, exit_status, exited, signaled, stop_additional,
    stop_signal, stopped, syscall_stop, term_signal, waitpid, DecodeError, WaitError, WaitPidFlag,
    WaitStatus, WaitTarget,
};
use unixproc::unistd::Pid;

#[test]
fn test_decode_exited_with_code() {
    let pid = Pid::from_raw(1);
    let status: i32 = 23 << 8;
    assert_eq!(
        WaitStatus::from_raw(pid, status),
        Ok(WaitStatus::Exited(pid, 23))
    );
    assert!(exited(status));
    assert_eq!(exit_status(status), 23);
    assert!(!signaled(status));
    assert!(!stopped(status));
    assert!(!continued(status));
}

#[test]
fn test_decode_signaled_interrupt_no_core() {
    let pid = Pid::from_raw(1);
    let status = WaitStatus::from_raw(pid, 0x0002);
    assert_eq!(status, Ok(WaitStatus::Signaled(pid, Signal::SIGINT, false)));
    assert!(signaled(0x0002));
    assert_eq!(term_signal(0x0002), Ok(Signal::SIGINT));
    assert!(!dumped_core(0x0002));
}

#[test]
fn test_decode_signaled_with_core_dump() {
    let pid = Pid::from_raw(33);
    let status: i32 = 0x0002 | 0x80;
    assert_eq!(
        WaitStatus::from_raw(pid, status),
        Ok(WaitStatus::Signaled(pid, Signal::SIGINT, true))
    );
    assert!(dumped_core(status));
}

#[test]
fn test_decode_plain_stop() {
    let pid = Pid::from_raw(2);
    // stopped by SIGSTOP (19): low byte 0x7f, stop signal in the second byte
    let status: i32 = 0x7f | (19 << 8);
    assert_eq!(
        WaitStatus::from_raw(pid, status),
        Ok(WaitStatus::Stopped(pid, Signal::SIGSTOP))
    );
    assert!(stopped(status));
    assert_eq!(stop_signal(status), Ok(Signal::SIGSTOP));
    assert!(!syscall_stop(status));
    assert_eq!(stop_additional(status), 0);
}

#[test]
fn test_decode_syscall_stop_never_plain_stop() {
    let pid = Pid::from_raw(3);
    // stop signal field holds TRAP (5) with the trace-syscall flag 0x80
    let status: i32 = 0x7f | (0x85 << 8);
    assert_eq!(
        WaitStatus::from_raw(pid, status),
        Ok(WaitStatus::PtraceSyscall(pid))
    );
    assert!(syscall_stop(status));
    assert!(!matches!(
        WaitStatus::from_raw(pid, status),
        Ok(WaitStatus::Stopped(_, _))
    ));
}

#[test]
fn test_decode_ptrace_event_trap_with_data() {
    let pid = Pid::from_raw(4);
    // stopped by TRAP (5) with event data 3 in the upper bits
    let status: i32 = 0x7f | (5 << 8) | (3 << 16);
    assert_eq!(
        WaitStatus::from_raw(pid, status),
        Ok(WaitStatus::PtraceEvent(pid, Signal::SIGTRAP, 3))
    );
    assert_eq!(stop_additional(status), 3);
}

#[test]
fn test_decode_continued() {
    let pid = Pid::from_raw(5);
    assert_eq!(
        WaitStatus::from_raw(pid, 0xffff),
        Ok(WaitStatus::Continued(pid))
    );
    assert!(continued(0xffff));
}

#[test]
fn test_decode_unknown_status() {
    let pid = Pid::from_raw(6);
    assert_eq!(
        WaitStatus::from_raw(pid, 0xff),
        Err(DecodeError::UnknownStatus)
    );
    assert!(!exited(0xff) && !signaled(0xff) && !stopped(0xff) && !continued(0xff));
}

#[test]
fn test_decode_invalid_terminating_signal() {
    let pid = Pid::from_raw(7);
    // terminated by "signal" 40, which maps to no known signal
    assert_eq!(
        WaitStatus::from_raw(pid, 40),
        Err(DecodeError::InvalidSignal)
    );
}

#[test]
fn test_decode_invalid_stop_signal() {
    let pid = Pid::from_raw(8);
    // stopped with stop signal field 200, which maps to no known signal
    let status: i32 = 0x7f | (200 << 8);
    assert_eq!(
        WaitStatus::from_raw(pid, status),
        Err(DecodeError::InvalidSignal)
    );
}

#[test]
fn test_resolve_positive_pid() {
    let pid = Pid::from_raw(42);
    let target = WaitTarget::resolve(pid);
    assert_eq!(target, WaitTarget::Child(pid));
    assert_eq!(target.to_raw_argument(), 42);
}

#[test]
fn test_resolve_zero_pid() {
    let target = WaitTarget::resolve(Pid::from_raw(0));
    assert_eq!(target, WaitTarget::SameGroupChild);
    assert_eq!(target.to_raw_argument(), 0);
}

#[test]
fn test_resolve_minus_one() {
    let target = WaitTarget::resolve(Pid::from_raw(-1));
    assert_eq!(target, WaitTarget::AnyChild);
    assert_eq!(target.to_raw_argument(), -1);
}

#[test]
fn test_resolve_group_pid() {
    // an id below -1 resolves to the group variant carrying its magnitude
    let target = WaitTarget::resolve(Pid::from_raw(-42));
    assert_eq!(target, WaitTarget::ChildOfGroup(Pid::from_raw(42)));
    assert_eq!(target.to_raw_argument(), -42);
}

#[test]
fn test_resolve_most_negative_pid() {
    // the one id whose magnitude is not representable stays as it is; the
    // raw-argument conversion refuses such a target
    let pid = Pid::from_raw(i32::MIN);
    assert_eq!(WaitTarget::resolve(pid), WaitTarget::ChildOfGroup(pid));
}

#[test]
fn test_group_target_from_leader_pid() {
    // built directly from the group leader's positive id, as the field's
    // doc asks: the raw argument is its negation
    let target = WaitTarget::ChildOfGroup(Pid::from_raw(7));
    assert_eq!(target.to_raw_argument(), -7);
}

#[test]
fn test_resolve_via_from() {
    assert_eq!(
        WaitTarget::from(Pid::from_raw(3)),
        WaitTarget::Child(Pid::from_raw(3))
    );
    assert_eq!(WaitTarget::from(Pid::from_raw(-1)), WaitTarget::AnyChild);
}

#[test]
fn test_status_pid_extraction() {
    let pid = Pid::from_raw(9);
    assert_eq!(WaitStatus::Exited(pid, 0).pid(), Some(pid));
    assert_eq!(
        WaitStatus::Signaled(pid, Signal::SIGKILL, false).pid(),
        Some(pid)
    );
    assert_eq!(WaitStatus::PtraceSyscall(pid).pid(), Some(pid));
    assert_eq!(WaitStatus::Continued(pid).pid(), Some(pid));
    assert_eq!(WaitStatus::StillAlive.pid(), None);
}

#[test]
fn test_no_change_report_is_still_alive() {
    assert_eq!(decode_wait_result(None), Ok(WaitStatus::StillAlive));
}

#[test]
fn test_reported_word_goes_to_decoder() {
    assert_eq!(
        decode_wait_result(Some((42, 23 << 8))),
        Ok(WaitStatus::Exited(Pid::from_raw(42), 23))
    );
}

#[test]
fn test_flag_bits() {
    assert_eq!(WaitPidFlag::empty().bits(), 0);
    assert_eq!(WaitPidFlag::wnohang().bits(), 0x1);
    assert_eq!(WaitPidFlag::wuntraced().bits(), 0x2);
    assert_eq!(WaitPidFlag::wstopped().bits(), 0x2);
    assert_eq!(WaitPidFlag::wexited().bits(), 0x4);
    assert_eq!(WaitPidFlag::wcontinued().bits(), 0x8);
    assert_eq!(WaitPidFlag::wnowait().bits(), 0x0100_0000);
    assert_eq!(WaitPidFlag::wnothread().bits(), 0x2000_0000);
    assert_eq!(WaitPidFlag::wall().bits(), 0x4000_0000);
    assert_eq!(WaitPidFlag::wclone().bits(), 0x8000_0000);
    let both = WaitPidFlag::wnohang().union(WaitPidFlag::wuntraced());
    assert_eq!(both.bits(), 0x3);
    assert!(both.contains(WaitPidFlag::wnohang()));
    assert!(!both.contains(WaitPidFlag::wcontinued()));
}

#[test]
fn test_interpret_wait_result_legs() {
    // the OS-failure leg is surfaced unchanged, the no-change leg becomes
    // StillAlive, and a reported word goes to the decoder
    assert_eq!(
        unixproc::sys::wait::interpret_wait_result(Err(10)),
        Err(WaitError::Os(Errno::from_raw(10)))
    );
    assert_eq!(
        unixproc::sys::wait::interpret_wait_result(Ok(None)),
        Ok(WaitStatus::StillAlive)
    );
    assert_eq!(
        unixproc::sys::wait::interpret_wait_result(Ok(Some((8, 0xffff)))),
        Ok(WaitStatus::Continued(Pid::from_raw(8)))
    );
    assert_eq!(
        unixproc::sys::wait::interpret_wait_result(Ok(Some((8, 0xff)))),
        Err(WaitError::Decode(DecodeError::UnknownStatus))
    );
}

#[test]
fn test_waitpid_without_children_reports_os_error() {
    // this test process has no child, so even a non-blocking poll must
    // surface the OS's "no child processes" error (number 10) unchanged
    let r = waitpid(WaitTarget::AnyChild, Some(WaitPidFlag::wnohang()));
    assert_eq!(r, Err(WaitError::Os(Errno::from_raw(10))));
}
