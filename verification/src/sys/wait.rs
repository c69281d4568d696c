use vstd::prelude::*;

use crate::errno::Errno;
use crate::sys::signal::{signal_of, Signal};
use crate::unistd::Pid;

verus! {

// ---------------------------------------------------------------------------
// The raw status word and its bit-test primitives.
//
// A raw status word is the packed 32-bit integer the kernel hands back from
// the blocking wait call. Its layout is ABI-defined and is read only through
// the bit-test primitives below, each of which mirrors one of the C status
// macros. The spec functions state the Linux-family layout; the executable
// functions delegate to the C library's own implementations of the macros,
// whose contracts are stated next to them.
// ---------------------------------------------------------------------------
/// The "exited normally" predicate: the low seven bits are all zero.
pub open spec fn is_exited(s: i32) -> bool {
    (s & 0x7f) == 0
}

/// The 8-bit exit code carried by a status word of an exited process.
pub open spec fn exit_code_of(s: i32) -> i32 {
    (s >> 8) & 0xff
}

/// The "terminated by a signal" predicate: the low seven bits name a signal,
/// so they are neither all zero (exited) nor all one (stopped).
pub open spec fn is_signaled(s: i32) -> bool {
    0 < (s & 0x7f) && (s & 0x7f) < 0x7f
}

/// The terminating signal number carried by the low seven bits.
pub open spec fn term_signal_of(s: i32) -> i32 {
    s & 0x7f
}

/// The "a core dump was produced" flag bit.
pub open spec fn core_dumped_of(s: i32) -> bool {
    (s & 0x80) != 0
}

/// The "currently stopped" predicate: the low byte is exactly 0x7f.
pub open spec fn is_stopped(s: i32) -> bool {
    (s & 0xff) == 0x7f
}

/// The stop signal number carried by the second byte of the status word.
pub open spec fn stop_signal_of(s: i32) -> i32 {
    (s >> 8) & 0xff
}

/// The syscall-stop marker: under trace-syscall reporting the stop signal
/// field holds the TRAP signal number (5) with the 0x80 flag set, i.e. 0x85,
/// which distinguishes syscall stops from genuine TRAP stops.
pub open spec fn is_syscall_stop(s: i32) -> bool {
    stop_signal_of(s) == 0x85
}

/// The additional 16-bit event field in the upper bits of the status word;
/// nonzero only for tracer event stops.
pub open spec fn stop_additional_of(s: i32) -> i32 {
    s >> 16
}

/// The "resumed by a continue signal" predicate: the whole word is 0xffff.
pub open spec fn is_continued(s: i32) -> bool {
    s == 0xffff
}

/// Relies on libc's `WIFEXITED` for the Linux family, whose body is
/// `(status & 0x7f) == 0`.
pub assume_specification [ libc::WIFEXITED ](status: libc::c_int) -> (r: bool)
    ensures
        r == is_exited(status),
;

/// Relies on libc's `WEXITSTATUS` for the Linux family, whose body is
/// `(status >> 8) & 0xff`.
pub assume_specification [ libc::WEXITSTATUS ](status: libc::c_int) -> (r: libc::c_int)
    ensures
        r == exit_code_of(status),
;

/// Relies on libc's `WIFSIGNALED` for the Linux family, whose body is
/// `((status & 0x7f) + 1) as i8 >= 2`. The masked value runs over 0..=0x7f,
/// and the shifted-and-compared form holds exactly when it is neither 0 nor
/// 0x7f, which is the range stated here.
pub assume_specification [ libc::WIFSIGNALED ](status: libc::c_int) -> (r: bool)
    ensures
        r == is_signaled(status),
;

/// Relies on libc's `WTERMSIG` for the Linux family, whose body is
/// `status & 0x7f`.
pub assume_specification [ libc::WTERMSIG ](status: libc::c_int) -> (r: libc::c_int)
    ensures
        r == term_signal_of(status),
;

/// Relies on libc's `WCOREDUMP` for the Linux family, whose body is
/// `(status & 0x80) != 0`.
pub assume_specification [ libc::WCOREDUMP ](status: libc::c_int) -> (r: bool)
    ensures
        r == core_dumped_of(status),
;

/// Relies on libc's `WIFSTOPPED` for the Linux family, whose body is
/// `(status & 0xff) == 0x7f`.
pub assume_specification [ libc::WIFSTOPPED ](status: libc::c_int) -> (r: bool)
    ensures
        r == is_stopped(status),
;

/// Relies on libc's `WSTOPSIG` for the Linux family, whose body is
/// `(status >> 8) & 0xff`.
pub assume_specification [ libc::WSTOPSIG ](status: libc::c_int) -> (r: libc::c_int)
    ensures
        r == stop_signal_of(status),
;

/// Relies on libc's `WIFCONTINUED` for the Linux family, whose body is
/// `status == 0xffff`.
pub assume_specification [ libc::WIFCONTINUED ](status: libc::c_int) -> (r: bool)
    ensures
        r == is_continued(status),
;

/// True when the status word says the process exited normally.
pub fn exited(status: i32) -> (r: bool)
    ensures
        r == is_exited(status),
{
    libc::WIFEXITED(status)
}

/// The exit code of a normally exited process.
pub fn exit_status(status: i32) -> (r: i32)
    ensures
        r == exit_code_of(status),
{
    libc::WEXITSTATUS(status)
}

/// True when the status word says a signal terminated the process.
pub fn signaled(status: i32) -> (r: bool)
    ensures
        r == is_signaled(status),
{
    libc::WIFSIGNALED(status)
}

/// The terminating signal of a signaled process, or `InvalidSignal` when the
/// signal field maps to no known signal.
pub fn term_signal(status: i32) -> (r: Result<Signal, DecodeError>)
    ensures
        r == term_signal_lookup(status),
{
    match Signal::try_from_raw(libc::WTERMSIG(status)) {
        Some(sig) => Ok(sig),
        None => Err(DecodeError::InvalidSignal),
    }
}

/// True when the terminating signal also produced a core dump.
pub fn dumped_core(status: i32) -> (r: bool)
    ensures
        r == core_dumped_of(status),
{
    libc::WCOREDUMP(status)
}

/// True when the status word says the process is currently stopped.
pub fn stopped(status: i32) -> (r: bool)
    ensures
        r == is_stopped(status),
{
    libc::WIFSTOPPED(status)
}

/// The stop signal of a stopped process, or `InvalidSignal` when the signal
/// field maps to no known signal.
pub fn stop_signal(status: i32) -> (r: Result<Signal, DecodeError>)
    ensures
        r == stop_signal_lookup(status),
{
    match Signal::try_from_raw(libc::WSTOPSIG(status)) {
        Some(sig) => Ok(sig),
        None => Err(DecodeError::InvalidSignal),
    }
}

/// True when the stop signal field carries the syscall-stop marker.
pub fn syscall_stop(status: i32) -> (r: bool)
    ensures
        r == is_syscall_stop(status),
{
    // The marker is the TRAP signal number with the trace-syscall flag 0x80.
    let marker: i32 = 0x85;
    libc::WSTOPSIG(status) == marker
}

/// The additional event data field of a stopped process's status word.
pub fn stop_additional(status: i32) -> (r: i32)
    ensures
        r == stop_additional_of(status),
{
    status >> 16
}

/// True when the status word says the process resumed after a stop.
pub fn continued(status: i32) -> (r: bool)
    ensures
        r == is_continued(status),
{
    libc::WIFCONTINUED(status)
}

/// The outcome of looking the terminating signal field up.
pub open spec fn term_signal_lookup(s: i32) -> Result<Signal, DecodeError> {
    match signal_of(term_signal_of(s) as int) {
        Some(sig) => Ok(sig),
        None => Err(DecodeError::InvalidSignal),
    }
}

/// The outcome of looking the stop signal field up.
pub open spec fn stop_signal_lookup(s: i32) -> Result<Signal, DecodeError> {
    match signal_of(stop_signal_of(s) as int) {
        Some(sig) => Ok(sig),
        None => Err(DecodeError::InvalidSignal),
    }
}

/// Of any raw status word, at most one of the four top-level predicates
/// (exited, signaled, stopped, continued) holds: the four classes of state
/// change are mutually exclusive, so a word never admits two decodings.
/// Words that satisfy none of the four exist (for example 0x000000ff) and
/// decode to the `UnknownStatus` error rather than to an outcome.
pub proof fn lemma_status_predicates_exclusive(s: i32)
    ensures
        !(is_exited(s) && is_signaled(s)),
        !(is_exited(s) && is_stopped(s)),
        !(is_exited(s) && is_continued(s)),
        !(is_signaled(s) && is_stopped(s)),
        !(is_signaled(s) && is_continued(s)),
        !(is_stopped(s) && is_continued(s)),
{
    assert(!(is_exited(s) && is_signaled(s)) && !(is_exited(s) && is_stopped(s)) && !(is_exited(s)
        && is_continued(s)) && !(is_signaled(s) && is_stopped(s)) && !(is_signaled(s)
        && is_continued(s)) && !(is_stopped(s) && is_continued(s))) by (bit_vector);
}

/// Every raw status word outside the dead zone satisfies at least one of the
/// four top-level predicates — together with the exclusivity above, exactly
/// one. The dead zone is the set of words whose low byte is all ones yet
/// which are not the continued marker 0xffff: those words satisfy none of
/// the predicates and decode to the `UnknownStatus` error.
pub proof fn lemma_status_predicate_holds(s: i32)
    requires
        !((s & 0xff) == 0xff && s != 0xffff),
    ensures
        is_exited(s) || is_signaled(s) || is_stopped(s) || is_continued(s),
{
    assert(((s & 0xff) == 0xff && s != 0xffff) || is_exited(s) || is_signaled(s) || is_stopped(s)
        || is_continued(s)) by (bit_vector);
}

// ---------------------------------------------------------------------------
// Wait targets.
// ---------------------------------------------------------------------------
/// The child targets a wait call can select, resolved from the signed
/// process-id convention of the underlying call: a positive id selects that
/// child, zero selects any child of the caller's process group, -1 selects
/// any child, and an id below -1 selects any child of the process group
/// whose id is its magnitude.
#[derive(Clone, Copy, Debug, PartialEq, Eq, Hash, Structural)]
pub enum WaitTarget {
    /// The child process with the given (positive) process id.
    Child(Pid),
    /// Any child process of the same process group as the calling process.
    SameGroupChild,
    /// Any child process.
    AnyChild,
    /// Any child process of the given process group. The stored id is the
    /// group id itself — the group leader's (positive) process id; targets
    /// resolved from a raw id below -1 carry that id's magnitude. The one
    /// raw id without a representable magnitude, the most negative one, is
    /// kept unchanged, and the raw-argument conversion refuses it.
    ChildOfGroup(Pid),
}

/// The target a raw process-id-like value selects. Total: every signed
/// value maps to exactly one target.
pub open spec fn resolve_spec(pid: Pid) -> WaitTarget {
    if pid@ > 0 {
        WaitTarget::Child(pid)
    } else if pid@ == -1 {
        WaitTarget::AnyChild
    } else if pid@ == 0 {
        WaitTarget::SameGroupChild
    } else if pid@ == i32::MIN {
        WaitTarget::ChildOfGroup(pid)
    } else {
        WaitTarget::ChildOfGroup(Pid::spec_from_raw((-pid@) as i32))
    }
}

/// The raw signed argument a target hands to the underlying call: the id
/// itself for a specific child, 0 for the same-group selector, -1 for the
/// any-child selector, and the plain negation of the stored group id for a
/// group target.
pub open spec fn raw_argument_of(t: WaitTarget) -> int {
    match t {
        WaitTarget::Child(p) => p@,
        WaitTarget::SameGroupChild => 0,
        WaitTarget::AnyChild => -1,
        WaitTarget::ChildOfGroup(g) => -g@,
    }
}

impl WaitTarget {
    /// Resolves a raw process-id-like value into the wait target it selects.
    pub fn resolve(pid: Pid) -> (r: WaitTarget)
        ensures
            r == resolve_spec(pid),
    {
        let raw: i32 = pid.as_raw();
        if raw > 0 {
            WaitTarget::Child(pid)
        } else if raw == -1 {
            WaitTarget::AnyChild
        } else if raw == 0 {
            WaitTarget::SameGroupChild
        } else if raw == i32::MIN {
            WaitTarget::ChildOfGroup(pid)
        } else {
            WaitTarget::ChildOfGroup(Pid::from_raw(-raw))
        }
    }

    /// Converts the target back into the raw signed argument the underlying
    /// call expects, recovering the negative sign convention for group
    /// targets by plain negation. The stored group id whose negation is not
    /// representable (the most negative one) is ruled out: that is a machine
    /// limit, not a convention.
    pub fn to_raw_argument(&self) -> (r: i32)
        requires
            raw_argument_of(*self) <= i32::MAX,
        ensures
            r as int == raw_argument_of(*self),
    {
        match *self {
            WaitTarget::Child(p) => p.as_raw(),
            WaitTarget::SameGroupChild => 0,
            WaitTarget::AnyChild => -1,
            WaitTarget::ChildOfGroup(g) => -g.as_raw(),
        }
    }
}

impl From<Pid> for WaitTarget {
    /// Resolves a raw process-id-like value, as `resolve` does.
    fn from(pid: Pid) -> (r: WaitTarget)
        ensures
            r == resolve_spec(pid),
    {
        WaitTarget::resolve(pid)
    }
}

impl vstd::std_specs::convert::FromSpecImpl<Pid> for WaitTarget {
    open spec fn obeys_from_spec() -> bool {
        true
    }

    open spec fn from_spec(pid: Pid) -> WaitTarget {
        resolve_spec(pid)
    }
}

/// Resolving a raw id and converting the resulting target back restores
/// the raw id exactly: a positive id round-trips to itself, the same-group
/// selector to 0, the any-child selector to -1, and an id below -1 (a group
/// selector, resolved to its magnitude) to the negated magnitude, which is
/// the id itself. The most negative id is left out: its magnitude is not
/// representable, a machine limit.
pub proof fn lemma_resolve_round_trip(pid: Pid)
    requires
        pid@ > i32::MIN,
    ensures
        raw_argument_of(resolve_spec(pid)) == pid@,
{
    if pid@ < -1 {
        crate::unistd::lemma_pid_view((-pid@) as i32);
    }
}

// ---------------------------------------------------------------------------
// Wait options.
// ---------------------------------------------------------------------------
/// A set of independent option flags for the wait call, kept as the orthogonal
/// bit set the underlying call takes. The constructors cover the flags the
/// Linux family supports; an unsupported flag has no constructor here, so it
/// cannot be requested at all.
#[derive(Clone, Copy, Debug, PartialEq, Eq, Hash, Structural)]
pub struct WaitPidFlag {
    bits: u32,
}

impl View for WaitPidFlag {
    type V = u32;

    closed spec fn view(&self) -> u32 {
        self.bits
    }
}

impl WaitPidFlag {
    /// The empty option set.
    pub fn empty() -> (r: WaitPidFlag)
        ensures
            r@ == 0u32,
    {
        WaitPidFlag { bits: 0 }
    }

    /// Non-blocking poll: return at once when no child has a state change.
    pub fn wnohang() -> (r: WaitPidFlag)
        ensures
            r@ == 0x1u32,
    {
        WaitPidFlag { bits: 0x1 }
    }

    /// Also report children stopped by a signal.
    pub fn wuntraced() -> (r: WaitPidFlag)
        ensures
            r@ == 0x2u32,
    {
        WaitPidFlag { bits: 0x2 }
    }

    /// Wait for exited children.
    pub fn wexited() -> (r: WaitPidFlag)
        ensures
            r@ == 0x4u32,
    {
        WaitPidFlag { bits: 0x4 }
    }

    /// Also report children resumed by a continue signal.
    pub fn wcontinued() -> (r: WaitPidFlag)
        ensures
            r@ == 0x8u32,
    {
        WaitPidFlag { bits: 0x8 }
    }

    /// Also report stopped children; the same bit as `wuntraced`.
    pub fn wstopped() -> (r: WaitPidFlag)
        ensures
            r@ == 0x2u32,
    {
        WaitPidFlag { bits: 0x2 }
    }

    /// Don't reap: leave the child waitable, just poll its status.
    pub fn wnowait() -> (r: WaitPidFlag)
        ensures
            r@ == 0x01000000u32,
    {
        WaitPidFlag { bits: 0x01000000 }
    }

    /// Don't wait on children of other threads in this thread group.
    pub fn wnothread() -> (r: WaitPidFlag)
        ensures
            r@ == 0x20000000u32,
    {
        WaitPidFlag { bits: 0x20000000 }
    }

    /// Wait on all children, regardless of type.
    pub fn wall() -> (r: WaitPidFlag)
        ensures
            r@ == 0x40000000u32,
    {
        WaitPidFlag { bits: 0x40000000 }
    }

    /// Wait on traced clone children only.
    pub fn wclone() -> (r: WaitPidFlag)
        ensures
            r@ == 0x80000000u32,
    {
        WaitPidFlag { bits: 0x80000000 }
    }

    /// The union of two option sets.
    pub fn union(self, other: WaitPidFlag) -> (r: WaitPidFlag)
        ensures
            r@ == (self@ | other@),
    {
        WaitPidFlag { bits: self.bits | other.bits }
    }

    /// True when every flag of `other` is also in `self`.
    pub fn contains(self, other: WaitPidFlag) -> (r: bool)
        ensures
            r == ((self@ & other@) == other@),
    {
        (self.bits & other.bits) == other.bits
    }

    /// The raw bit set handed to the underlying call.
    pub fn bits(self) -> (r: u32)
        ensures
            r == self@,
    {
        self.bits
    }
}

/// True when the option set requests the non-blocking poll.
pub open spec fn nohang_requested(options: Option<WaitPidFlag>) -> bool {
    match options {
        Option::None => false,
        Option::Some(f) => (f@ & 0x1u32) != 0u32,
    }
}

// ---------------------------------------------------------------------------
// Wait outcomes and the status decoder.
// ---------------------------------------------------------------------------
/// The errors the status decoder can report. Both say the raw status word
/// did not conform to the expected ABI: they mark an environment or usage
/// fault, not a recoverable condition.
#[derive(Clone, Copy, Debug, PartialEq, Eq, Hash, Structural)]
pub enum DecodeError {
    /// A signal field's numeric value maps to no known signal.
    InvalidSignal,
    /// No top-level status predicate matched the word.
    UnknownStatus,
}

/// The errors the blocking wait call can report: an error of the underlying
/// OS call, surfaced unchanged, or a decode fault in the returned word,
/// propagated as a fatal error.
#[derive(Clone, Copy, Debug, PartialEq, Eq, Hash, Structural)]
pub enum WaitError {
    /// The OS call itself failed; the raw error is carried unchanged.
    Os(Errno),
    /// The OS call succeeded but the status word did not decode.
    Decode(DecodeError),
}

/// The possible outcomes of a wait call. Each outcome other than
/// `StillAlive` describes a state transition of the child process named by
/// its `Pid`. `PtraceEvent` and `PtraceSyscall` are produced only by the
/// Linux-family stopped-status sub-decode; `StillAlive` is produced only
/// when the non-blocking poll option found no state change.
#[derive(Clone, Copy, Debug, PartialEq, Eq, Hash, Structural)]
pub enum WaitStatus {
    /// The process exited normally with the given 8-bit exit code.
    Exited(Pid, i32),
    /// The process was killed by the given signal; the flag says whether a
    /// core dump was produced.
    Signaled(Pid, Signal, bool),
    /// The process is alive but was stopped by the given signal.
    Stopped(Pid, Signal),
    /// The traced process was stopped by a tracer event; the third field is
    /// the event code from the upper bits of the status word.
    PtraceEvent(Pid, Signal, i32),
    /// The traced process was stopped by execution of a system call under
    /// trace-syscall reporting.
    PtraceSyscall(Pid),
    /// The process resumed execution after receiving a continue signal.
    Continued(Pid),
    /// No awaited child had a state change to report.
    StillAlive,
}

/// The process the outcome speaks of, or `None` for `StillAlive`.
pub open spec fn pid_of(st: WaitStatus) -> Option<Pid> {
    match st {
        WaitStatus::Exited(p, _) => Some(p),
        WaitStatus::Signaled(p, _, _) => Some(p),
        WaitStatus::Stopped(p, _) => Some(p),
        WaitStatus::PtraceEvent(p, _, _) => Some(p),
        WaitStatus::PtraceSyscall(p) => Some(p),
        WaitStatus::Continued(p) => Some(p),
        WaitStatus::StillAlive => None,
    }
}

/// The Linux-family sub-decode of a stopped status word: the syscall-stop
/// marker wins first, then a zero event field means a plain stop, and a
/// nonzero event field a tracer event stop.
pub open spec fn decode_stopped_spec(pid: Pid, s: i32) -> Result<WaitStatus, DecodeError> {
    if is_syscall_stop(s) {
        Ok(WaitStatus::PtraceSyscall(pid))
    } else if stop_additional_of(s) == 0 {
        match signal_of(stop_signal_of(s) as int) {
            Some(sig) => Ok(WaitStatus::Stopped(pid, sig)),
            None => Err(DecodeError::InvalidSignal),
        }
    } else {
        match signal_of(stop_signal_of(s) as int) {
            Some(sig) => Ok(WaitStatus::PtraceEvent(pid, sig, stop_additional_of(s))),
            None => Err(DecodeError::InvalidSignal),
        }
    }
}

/// The decoder's full case analysis, applied in the fixed precedence order:
/// exited, then signaled, then stopped (with the sub-decode above), then
/// continued; a word matching no predicate is an `UnknownStatus` fault.
pub open spec fn decode_spec(pid: Pid, s: i32) -> Result<WaitStatus, DecodeError> {
    if is_exited(s) {
        Ok(WaitStatus::Exited(pid, exit_code_of(s)))
    } else if is_signaled(s) {
        match signal_of(term_signal_of(s) as int) {
            Some(sig) => Ok(WaitStatus::Signaled(pid, sig, core_dumped_of(s))),
            None => Err(DecodeError::InvalidSignal),
        }
    } else if is_stopped(s) {
        decode_stopped_spec(pid, s)
    } else if is_continued(s) {
        Ok(WaitStatus::Continued(pid))
    } else {
        Err(DecodeError::UnknownStatus)
    }
}

/// Whatever word it is given, the decoder labels a successful outcome with
/// exactly the process id it was handed, and never yields `StillAlive`:
/// that outcome can only come from the no-change path of the wait call.
pub proof fn lemma_decode_pid(pid: Pid, s: i32)
    ensures
        match decode_spec(pid, s) {
            Ok(st) => st != WaitStatus::StillAlive && pid_of(st) == Some(pid),
            Err(_) => true,
        },
{
}

fn decode_stopped(pid: Pid, status: i32) -> (r: Result<WaitStatus, DecodeError>)
    ensures
        r == decode_stopped_spec(pid, status),
{
    let status_additional: i32 = stop_additional(status);
    if syscall_stop(status) {
        Ok(WaitStatus::PtraceSyscall(pid))
    } else if status_additional == 0 {
        match stop_signal(status) {
            Ok(sig) => Ok(WaitStatus::Stopped(pid, sig)),
            Err(e) => Err(e),
        }
    } else {
        match stop_signal(status) {
            Ok(sig) => Ok(WaitStatus::PtraceEvent(pid, sig, status_additional)),
            Err(e) => Err(e),
        }
    }
}

impl WaitStatus {
    /// Extracts the process id the outcome speaks of, unless it is
    /// `StillAlive`, which names no process.
    pub fn pid(&self) -> (r: Option<Pid>)
        ensures
            r == pid_of(*self),
    {
        match *self {
            WaitStatus::Exited(p, _) => Some(p),
            WaitStatus::Signaled(p, _, _) => Some(p),
            WaitStatus::Stopped(p, _) => Some(p),
            WaitStatus::PtraceEvent(p, _, _) => Some(p),
            WaitStatus::PtraceSyscall(p) => Some(p),
            WaitStatus::Continued(p) => Some(p),
            WaitStatus::StillAlive => None,
        }
    }

    /// Decodes a raw status word, as returned by the blocking wait call for
    /// the process `pid`, into the outcome it encodes. The first matching
    /// top-level predicate wins; a word matching none yields
    /// `UnknownStatus`, and a signal field naming no known signal yields
    /// `InvalidSignal`.
    pub fn from_raw(pid: Pid, status: i32) -> (r: Result<WaitStatus, DecodeError>)
        ensures
            r == decode_spec(pid, status),
    {
        if exited(status) {
            Ok(WaitStatus::Exited(pid, exit_status(status)))
        } else if signaled(status) {
            match term_signal(status) {
                Ok(sig) => Ok(WaitStatus::Signaled(pid, sig, dumped_core(status))),
                Err(e) => Err(e),
            }
        } else if stopped(status) {
            decode_stopped(pid, status)
        } else if continued(status) {
            Ok(WaitStatus::Continued(pid))
        } else {
            Err(DecodeError::UnknownStatus)
        }
    }
}

/// Interprets what the underlying wait call reported: no state change (only
/// reachable under the non-blocking poll option) becomes `StillAlive`
/// without touching the decoder; a reported process id and raw status word
/// go to the decoder.
pub fn decode_wait_result(res: Option<(i32, i32)>) -> (r: Result<WaitStatus, DecodeError>)
    ensures
        match res {
            Option::None => r == Ok::<WaitStatus, DecodeError>(WaitStatus::StillAlive),
            Option::Some((p, s)) => r == decode_spec(Pid::spec_from_raw(p), s),
        },
{
    match res {
        None => Ok(WaitStatus::StillAlive),
        Some((p, s)) => WaitStatus::from_raw(Pid::from_raw(p), s),
    }
}

/// Interprets everything the underlying wait call can hand back, the error
/// leg included: an OS failure is surfaced unchanged as an `Os` error, a
/// no-change report becomes `StillAlive` without touching the decoder, and
/// a reported process id and status word go to the decoder, whose fault is
/// propagated as a fatal `Decode` error.
pub fn interpret_wait_result(res: Result<Option<(i32, i32)>, i32>) -> (r: Result<
    WaitStatus,
    WaitError,
>)
    ensures
        match res {
            Ok(None) => r == Ok::<WaitStatus, WaitError>(WaitStatus::StillAlive),
            Ok(Some((p, s))) => r == (match decode_spec(Pid::spec_from_raw(p), s) {
                Ok(st) => Ok::<WaitStatus, WaitError>(st),
                Err(de) => Err(WaitError::Decode(de)),
            }),
            Err(e) => r == Err::<WaitStatus, WaitError>(WaitError::Os(Errno::spec_from_raw(e))),
        },
{
    match res {
        Ok(opt) => match decode_wait_result(opt) {
            Ok(st) => Ok(st),
            Err(e) => Err(WaitError::Decode(e)),
        },
        Err(e) => Err(WaitError::Os(Errno::from_raw(e))),
    }
}

// ---------------------------------------------------------------------------
// The blocking wait call.
// ---------------------------------------------------------------------------
/// Relies on rustix's `process::waitpid`: with a positive id it waits for
/// that child and reports that child's id and raw status word; with id zero
/// it waits for any child of the caller's process group. It returns no
/// report only when the non-blocking bit 0x1 was set and no child had a
/// state change, and the raw OS error number on failure.
#[verifier::external_body]
fn os_waitpid_raw(pid: i32, bits: u32) -> (r: Result<Option<(i32, i32)>, i32>)
    requires
        pid >= 0,
    ensures
        match r {
            Ok(o) => (bits & 0x1u32) == 0u32 ==> o is Some,
            Err(_) => true,
        },
        match r {
            Ok(Some((p, s))) => pid > 0 ==> p == pid,
            _ => true,
        },
{
    let target = rustix::process::Pid::from_raw(pid);
    let opts = rustix::process::WaitOptions::from_bits_retain(bits);
    match rustix::process::waitpid(target, opts) {
        Ok(Some((p, st))) => Ok(Some((p.as_raw_nonzero().get(), st.as_raw()))),
        Ok(None) => Ok(None),
        Err(e) => Err(e.raw_os_error()),
    }
}

/// Relies on rustix's `process::wait`: waits for any child of the calling
/// process and reports that child's id and raw status word. It returns no
/// report only when the non-blocking bit 0x1 was set and no child had a
/// state change, and the raw OS error number on failure.
#[verifier::external_body]
fn os_wait_any(bits: u32) -> (r: Result<Option<(i32, i32)>, i32>)
    ensures
        match r {
            Ok(o) => (bits & 0x1u32) == 0u32 ==> o is Some,
            Err(_) => true,
        },
{
    let opts = rustix::process::WaitOptions::from_bits_retain(bits);
    match rustix::process::wait(opts) {
        Ok(Some((p, st))) => Ok(Some((p.as_raw_nonzero().get(), st.as_raw()))),
        Ok(None) => Ok(None),
        Err(e) => Err(e.raw_os_error()),
    }
}

/// Relies on rustix's `process::waitpgid`: waits for any child of the given
/// (positive) process group and reports that child's id and raw status
/// word. It returns no report only when the non-blocking bit 0x1 was set
/// and no child had a state change, and the raw OS error number on failure.
#[verifier::external_body]
fn os_waitpgid(pgid: i32, bits: u32) -> (r: Result<Option<(i32, i32)>, i32>)
    requires
        pgid > 0,
    ensures
        match r {
            Ok(o) => (bits & 0x1u32) == 0u32 ==> o is Some,
            Err(_) => true,
        },
{
    let group = rustix::process::Pid::from_raw(pgid).expect("positive process group id");
    let opts = rustix::process::WaitOptions::from_bits_retain(bits);
    match rustix::process::waitpgid(group, opts) {
        Ok(Some((p, st))) => Ok(Some((p.as_raw_nonzero().get(), st.as_raw()))),
        Ok(None) => Ok(None),
        Err(e) => Err(e.raw_os_error()),
    }
}

/// Waits for a state change in the children `who` selects, with the given
/// option flags, and decodes the report. `StillAlive` is returned exactly
/// when the call reported no state change, which can only happen under the
/// non-blocking poll option; an OS failure is surfaced unchanged; a status
/// word that does not decode is a fatal `Decode` error. Unless the no-reap
/// option was set, a reported termination also reaps the child. A target
/// whose raw argument is not representable (a group id whose negation
/// overflows, or the most negative specific id) is ruled out up front: a
/// machine limit.
pub fn waitpid(who: WaitTarget, options: Option<WaitPidFlag>) -> (r: Result<WaitStatus, WaitError>)
    requires
        raw_argument_of(who) > i32::MIN,
        raw_argument_of(who) <= i32::MAX,
    ensures
        !nohang_requested(options) ==> r != Ok::<WaitStatus, WaitError>(WaitStatus::StillAlive),
        match r {
            Ok(st) => match who {
                WaitTarget::Child(p) => (p@ > 0 && st != WaitStatus::StillAlive) ==> pid_of(st)
                    == Some(p),
                _ => true,
            },
            Err(_) => true,
        },
{
    proof {
        assert((0u32 & 0x1u32) == 0u32) by (bit_vector);
    }
    let bits: u32 = match &options {
        Some(f) => f.bits(),
        None => 0,
    };
    let raw: i32 = who.to_raw_argument();
    let res: Result<Option<(i32, i32)>, i32> = if raw >= 0 {
        os_waitpid_raw(raw, bits)
    } else if raw == -1 {
        os_wait_any(bits)
    } else {
        os_waitpgid(-raw, bits)
    };
    proof {
        match res {
            Ok(Some((rp, s))) => {
                lemma_decode_pid(Pid::spec_from_raw(rp), s);
                match who {
                    WaitTarget::Child(p) => {
                        if p@ > 0 {
                            crate::unistd::lemma_pid_from_view(p, rp);
                        }
                    },
                    _ => (),
                }
            },
            _ => (),
        }
    }
    interpret_wait_result(res)
}

/// Waits until any child process has a state change, with no options: the
/// blocking form of `waitpid` over the any-child target. Since the
/// non-blocking option is not requested, the outcome is never `StillAlive`.
pub fn wait() -> (r: Result<WaitStatus, WaitError>)
    ensures
        r != Ok::<WaitStatus, WaitError>(WaitStatus::StillAlive),
{
    waitpid(WaitTarget::AnyChild, None)
}

} // verus!
