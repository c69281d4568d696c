use vstd::prelude::*;

use crate::errno::{Errno, ENOSYS};

verus! {

/// The reserved limit magnitude that means "unbounded" on Linux: the
/// all-ones 64-bit word, distinct from every finite limit.
pub const RLIM_INFINITY: u64 = 0xffff_ffff_ffff_ffff;

/// The process resource kinds whose limits can be read and written, the set
/// a Linux-family target knows.
#[derive(Clone, Copy, Debug, PartialEq, Eq, Hash, Structural)]
#[allow(non_camel_case_types)]
pub enum Resource {
    /// The maximum size of the process's mapped address space.
    RLIMIT_AS,
    /// The maximum size of a core dump file.
    RLIMIT_CORE,
    /// The maximum amount of CPU time, in seconds.
    RLIMIT_CPU,
    /// The maximum size of the process's data segment.
    RLIMIT_DATA,
    /// The maximum size of files the process may create.
    RLIMIT_FSIZE,
    /// The maximum number of file locks the process may hold.
    RLIMIT_LOCKS,
    /// The maximum number of bytes the process may lock into memory.
    RLIMIT_MEMLOCK,
    /// The maximum number of bytes in POSIX message queues.
    RLIMIT_MSGQUEUE,
    /// The ceiling on the process's nice value.
    RLIMIT_NICE,
    /// The maximum number of open file descriptors.
    RLIMIT_NOFILE,
    /// The maximum number of processes of the owning user.
    RLIMIT_NPROC,
    /// The maximum resident set size.
    RLIMIT_RSS,
    /// The ceiling on the process's real-time priority.
    RLIMIT_RTPRIO,
    /// The maximum CPU time, in microseconds, under real-time scheduling.
    RLIMIT_RTTIME,
    /// The maximum number of signals that may be queued.
    RLIMIT_SIGPENDING,
    /// The maximum size of the process stack.
    RLIMIT_STACK,
}

/// The optional limit a raw limit word denotes: the reserved sentinel means
/// "unbounded" and becomes `None`; every other word, the largest finite
/// magnitude included, is a finite limit and is preserved as `Some`.
pub open spec fn limit_of_raw(v: u64) -> Option<u64> {
    if v == RLIM_INFINITY {
        None
    } else {
        Some(v)
    }
}

/// The raw limit word an optional limit denotes: `None` becomes the reserved
/// "unbounded" sentinel, and a finite limit is passed through unchanged.
pub open spec fn raw_of_limit(l: Option<u64>) -> u64 {
    match l {
        None => RLIM_INFINITY,
        Some(v) => v,
    }
}

/// Converts a raw limit word read from the OS into an optional limit. This
/// is the single sentinel comparison both accessor directions share.
pub fn limit_from_raw(v: u64) -> (r: Option<u64>)
    ensures
        r == limit_of_raw(v),
{
    if v == RLIM_INFINITY {
        None
    } else {
        Some(v)
    }
}

/// Converts an optional limit into the raw limit word handed to the OS.
pub fn limit_to_raw(l: Option<u64>) -> (r: u64)
    ensures
        r == raw_of_limit(l),
{
    match l {
        None => RLIM_INFINITY,
        Some(v) => v,
    }
}

/// The sentinel round-trips through the optional form: a raw word survives
/// a pass through the optional limit unchanged, and an optional limit that
/// does not spell the sentinel out as a finite value (`None` in particular)
/// survives a pass through the raw word unchanged.
pub proof fn lemma_limit_round_trip(v: u64, l: Option<u64>)
    ensures
        raw_of_limit(limit_of_raw(v)) == v,
        l != Some(RLIM_INFINITY) ==> limit_of_raw(raw_of_limit(l)) == l,
{
}

/// The conversion legs of lowering an observed finite soft limit by one:
/// writing one less than a finite soft limit of at least one hands the OS
/// exactly that decremented word, and reading the same word back yields
/// exactly the decremented finite limit. Whether the OS keeps the written
/// pair between the calls is the OS's own affair.
pub proof fn lemma_soft_limit_decrement(s: u64)
    requires
        s >= 1,
    ensures
        raw_of_limit(Some((s - 1) as u64)) == s - 1,
        limit_of_raw((s - 1) as u64) == Some((s - 1) as u64),
{
}

/// The name the C library and the `rlimit` crate use for a resource kind,
/// as a sequence of characters.
pub open spec fn name_of(r: Resource) -> Seq<char> {
    match r {
        Resource::RLIMIT_AS => "RLIMIT_AS"@,
        Resource::RLIMIT_CORE => "RLIMIT_CORE"@,
        Resource::RLIMIT_CPU => "RLIMIT_CPU"@,
        Resource::RLIMIT_DATA => "RLIMIT_DATA"@,
        Resource::RLIMIT_FSIZE => "RLIMIT_FSIZE"@,
        Resource::RLIMIT_LOCKS => "RLIMIT_LOCKS"@,
        Resource::RLIMIT_MEMLOCK => "RLIMIT_MEMLOCK"@,
        Resource::RLIMIT_MSGQUEUE => "RLIMIT_MSGQUEUE"@,
        Resource::RLIMIT_NICE => "RLIMIT_NICE"@,
        Resource::RLIMIT_NOFILE => "RLIMIT_NOFILE"@,
        Resource::RLIMIT_NPROC => "RLIMIT_NPROC"@,
        Resource::RLIMIT_RSS => "RLIMIT_RSS"@,
        Resource::RLIMIT_RTPRIO => "RLIMIT_RTPRIO"@,
        Resource::RLIMIT_RTTIME => "RLIMIT_RTTIME"@,
        Resource::RLIMIT_SIGPENDING => "RLIMIT_SIGPENDING"@,
        Resource::RLIMIT_STACK => "RLIMIT_STACK"@,
    }
}

/// True when the characters spell the name of one of the sixteen resource
/// kinds: exactly the names the OS-call boundary accepts.
pub open spec fn is_resource_name(n: Seq<char>) -> bool {
    exists|r: Resource| n == name_of(r)
}

/// The name of every resource kind satisfies the boundary's name predicate.
pub proof fn lemma_resource_name_valid(r: Resource)
    ensures
        is_resource_name(name_of(r)),
{
    assert(name_of(r) == name_of(r));
}

/// The name the OS-call boundary is handed for a resource kind. The
/// contract fixes the name exactly, so which resource a call touches is
/// pinned all the way to the boundary.
pub fn resource_name(resource: &Resource) -> (n: &'static str)
    ensures
        n@ == name_of(*resource),
{
    match resource {
        Resource::RLIMIT_AS => "RLIMIT_AS",
        Resource::RLIMIT_CORE => "RLIMIT_CORE",
        Resource::RLIMIT_CPU => "RLIMIT_CPU",
        Resource::RLIMIT_DATA => "RLIMIT_DATA",
        Resource::RLIMIT_FSIZE => "RLIMIT_FSIZE",
        Resource::RLIMIT_LOCKS => "RLIMIT_LOCKS",
        Resource::RLIMIT_MEMLOCK => "RLIMIT_MEMLOCK",
        Resource::RLIMIT_MSGQUEUE => "RLIMIT_MSGQUEUE",
        Resource::RLIMIT_NICE => "RLIMIT_NICE",
        Resource::RLIMIT_NOFILE => "RLIMIT_NOFILE",
        Resource::RLIMIT_NPROC => "RLIMIT_NPROC",
        Resource::RLIMIT_RSS => "RLIMIT_RSS",
        Resource::RLIMIT_RTPRIO => "RLIMIT_RTPRIO",
        Resource::RLIMIT_RTTIME => "RLIMIT_RTTIME",
        Resource::RLIMIT_SIGPENDING => "RLIMIT_SIGPENDING",
        Resource::RLIMIT_STACK => "RLIMIT_STACK",
    }
}

/// Relies on the `rlimit` crate's `Resource` name table (its string parse
/// maps each `RLIMIT_*` name to that resource, and every name the boundary
/// predicate admits is in the table, so the parse cannot fail) and on its
/// `getrlimit`: on success the raw soft and hard limit words the OS reports
/// for the named resource, with the Linux "unbounded" sentinel left in
/// place; on failure, the raw OS error number (or 0 when the failure
/// carries none).
#[verifier::external_body]
fn os_getrlimit(name: &str) -> (r: Result<(u64, u64), i32>)
    requires
        is_resource_name(name@),
{
    let res: rlimit::Resource = name.parse().expect("a known resource name");
    match rlimit::getrlimit(res) {
        Ok((soft, hard)) => Ok((soft, hard)),
        Err(e) => Err(match e.raw_os_error() {
            Some(n) => n,
            None => 0,
        }),
    }
}

/// Relies on the `rlimit` crate's `Resource` name table (as above) and on
/// its `setrlimit`: hands the raw soft and hard limit words to the classic
/// whole-process call for the named resource; on failure it returns the raw
/// OS error number (or 0 when the failure carries none).
#[verifier::external_body]
fn os_setrlimit(name: &str, soft: u64, hard: u64) -> (r: Result<(), i32>)
    requires
        is_resource_name(name@),
{
    let res: rlimit::Resource = name.parse().expect("a known resource name");
    match rlimit::setrlimit(res, soft, hard) {
        Ok(()) => Ok(()),
        Err(e) => Err(match e.raw_os_error() {
            Some(n) => n,
            None => 0,
        }),
    }
}

/// Relies on the `rlimit` crate's `Resource` name table (as above) and on
/// its `prlimit` with process id 0, which the underlying call defines as
/// the calling process: hands the raw soft and hard limit words to the
/// per-process call for the named resource; on failure it returns the raw
/// OS error number (or 0 when the failure carries none).
#[verifier::external_body]
fn os_prlimit_self(name: &str, soft: u64, hard: u64) -> (r: Result<(), i32>)
    requires
        is_resource_name(name@),
{
    let res: rlimit::Resource = name.parse().expect("a known resource name");
    match rlimit::prlimit(0, res, Some((soft, hard)), None) {
        Ok(()) => Ok(()),
        Err(e) => Err(match e.raw_os_error() {
            Some(n) => n,
            None => 0,
        }),
    }
}

/// Interprets everything the limit-reading call can hand back, the error
/// leg included: a failure is surfaced unchanged, and the two raw limit
/// words become optional limits through the shared sentinel conversion.
pub fn interpret_limits_result(res: Result<(u64, u64), i32>) -> (r: Result<
    (Option<u64>, Option<u64>),
    Errno,
>)
    ensures
        match res {
            Ok((soft, hard)) => r == Ok::<(Option<u64>, Option<u64>), Errno>(
                (limit_of_raw(soft), limit_of_raw(hard)),
            ),
            Err(e) => r == Err::<(Option<u64>, Option<u64>), Errno>(Errno::spec_from_raw(e)),
        },
{
    match res {
        Ok((soft, hard)) => Ok((limit_from_raw(soft), limit_from_raw(hard))),
        Err(e) => Err(Errno::from_raw(e)),
    }
}

/// Reads the current soft and hard limits of a resource. `None` stands for
/// "unbounded": a raw word equal to the reserved sentinel is translated to
/// `None`, and every other word, the largest finite magnitude included, is
/// preserved as a finite limit — so a finite limit equal to the sentinel is
/// never reported. An OS failure is surfaced unchanged.
pub fn getrlimit(resource: Resource) -> (r: Result<(Option<u64>, Option<u64>), Errno>)
    ensures
        match r {
            Ok((soft, hard)) => soft != Some(RLIM_INFINITY) && hard != Some(RLIM_INFINITY),
            Err(_) => true,
        },
{
    proof {
        lemma_resource_name_valid(resource);
    }
    interpret_limits_result(os_getrlimit(resource_name(&resource)))
}

/// What the limit setter does after its first, per-process attempt.
#[derive(Clone, Copy, Debug, PartialEq, Eq, Hash, Structural)]
pub enum SetStep {
    /// The per-process call succeeded; the setter is done.
    Done,
    /// The per-process call is unavailable on this kernel; the classic
    /// whole-process call takes over.
    Fallback,
    /// The per-process call failed for a real reason; the error is surfaced
    /// unchanged, with no second attempt.
    Fail(Errno),
}

/// Decides what the limit setter owes after the per-process attempt:
/// success is final, exactly the "call unavailable" error falls back to the
/// classic call, and every other error is carried out unchanged.
pub fn prlimit_outcome(first: Result<(), i32>) -> (r: SetStep)
    ensures
        first is Ok ==> r == SetStep::Done,
        first == Err::<(), i32>(ENOSYS) ==> r == SetStep::Fallback,
        match first {
            Err(e) => e != ENOSYS ==> r == SetStep::Fail(Errno::spec_from_raw(e)),
            Ok(_) => true,
        },
{
    match first {
        Ok(()) => SetStep::Done,
        Err(e) => {
            if e == ENOSYS {
                SetStep::Fallback
            } else {
                SetStep::Fail(Errno::from_raw(e))
            }
        },
    }
}

/// Surfaces what the classic whole-process call reported, unchanged.
pub fn surface_set_result(second: Result<(), i32>) -> (r: Result<(), Errno>)
    ensures
        match second {
            Ok(_) => r == Ok::<(), Errno>(()),
            Err(e) => r == Err::<(), Errno>(Errno::spec_from_raw(e)),
        },
{
    match second {
        Ok(()) => Ok(()),
        Err(e) => Err(Errno::from_raw(e)),
    }
}

/// Writes the soft and hard limits of a resource. `None` stands for
/// "unbounded" and is translated to the reserved sentinel before the call
/// (`limit_to_raw`). The per-process primitive is preferred; the decision
/// on its outcome is `prlimit_outcome`: the classic whole-process call is
/// used exactly when the per-process one is unavailable, and any other OS
/// failure (privilege, or a soft limit above the hard limit) is surfaced
/// unchanged, with no retry.
pub fn setrlimit(resource: Resource, soft_limit: Option<u64>, hard_limit: Option<u64>) -> (r:
    Result<(), Errno>)
{
    proof {
        lemma_resource_name_valid(resource);
    }
    let soft: u64 = limit_to_raw(soft_limit);
    let hard: u64 = limit_to_raw(hard_limit);
    let name: &str = resource_name(&resource);
    match prlimit_outcome(os_prlimit_self(name, soft, hard)) {
        SetStep::Done => Ok(()),
        SetStep::Fallback => surface_set_result(os_setrlimit(name, soft, hard)),
        SetStep::Fail(e) => Err(e),
    }
}

} // verus!
