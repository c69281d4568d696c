use vstd::prelude::*;

verus! {

/// The signals a status word can name, under the primary Linux-family
/// numbering (the one used on x86-64, aarch64 and most other targets):
/// `SIGHUP` is 1 and the numbers run densely up to `SIGSYS` at 31.
#[derive(Clone, Copy, Debug, PartialEq, Eq, Hash, Structural)]
pub enum Signal {
    SIGHUP,
    SIGINT,
    SIGQUIT,
    SIGILL,
    SIGTRAP,
    SIGABRT,
    SIGBUS,
    SIGFPE,
    SIGKILL,
    SIGUSR1,
    SIGSEGV,
    SIGUSR2,
    SIGPIPE,
    SIGALRM,
    SIGTERM,
    SIGSTKFLT,
    SIGCHLD,
    SIGCONT,
    SIGSTOP,
    SIGTSTP,
    SIGTTIN,
    SIGTTOU,
    SIGURG,
    SIGXCPU,
    SIGXFSZ,
    SIGVTALRM,
    SIGPROF,
    SIGWINCH,
    SIGIO,
    SIGPWR,
    SIGSYS,
}

/// The signal a raw signal number names, or `None` when the number maps to
/// no known signal.
pub open spec fn signal_of(n: int) -> Option<Signal> {
    if n == 1 {
        Some(Signal::SIGHUP)
    } else if n == 2 {
        Some(Signal::SIGINT)
    } else if n == 3 {
        Some(Signal::SIGQUIT)
    } else if n == 4 {
        Some(Signal::SIGILL)
    } else if n == 5 {
        Some(Signal::SIGTRAP)
    } else if n == 6 {
        Some(Signal::SIGABRT)
    } else if n == 7 {
        Some(Signal::SIGBUS)
    } else if n == 8 {
        Some(Signal::SIGFPE)
    } else if n == 9 {
        Some(Signal::SIGKILL)
    } else if n == 10 {
        Some(Signal::SIGUSR1)
    } else if n == 11 {
        Some(Signal::SIGSEGV)
    } else if n == 12 {
        Some(Signal::SIGUSR2)
    } else if n == 13 {
        Some(Signal::SIGPIPE)
    } else if n == 14 {
        Some(Signal::SIGALRM)
    } else if n == 15 {
        Some(Signal::SIGTERM)
    } else if n == 16 {
        Some(Signal::SIGSTKFLT)
    } else if n == 17 {
        Some(Signal::SIGCHLD)
    } else if n == 18 {
        Some(Signal::SIGCONT)
    } else if n == 19 {
        Some(Signal::SIGSTOP)
    } else if n == 20 {
        Some(Signal::SIGTSTP)
    } else if n == 21 {
        Some(Signal::SIGTTIN)
    } else if n == 22 {
        Some(Signal::SIGTTOU)
    } else if n == 23 {
        Some(Signal::SIGURG)
    } else if n == 24 {
        Some(Signal::SIGXCPU)
    } else if n == 25 {
        Some(Signal::SIGXFSZ)
    } else if n == 26 {
        Some(Signal::SIGVTALRM)
    } else if n == 27 {
        Some(Signal::SIGPROF)
    } else if n == 28 {
        Some(Signal::SIGWINCH)
    } else if n == 29 {
        Some(Signal::SIGIO)
    } else if n == 30 {
        Some(Signal::SIGPWR)
    } else if n == 31 {
        Some(Signal::SIGSYS)
    } else {
        None
    }
}

/// The raw number of a signal, the inverse of `signal_of`.
pub open spec fn raw_of_signal(s: Signal) -> int {
    match s {
        Signal::SIGHUP => 1,
        Signal::SIGINT => 2,
        Signal::SIGQUIT => 3,
        Signal::SIGILL => 4,
        Signal::SIGTRAP => 5,
        Signal::SIGABRT => 6,
        Signal::SIGBUS => 7,
        Signal::SIGFPE => 8,
        Signal::SIGKILL => 9,
        Signal::SIGUSR1 => 10,
        Signal::SIGSEGV => 11,
        Signal::SIGUSR2 => 12,
        Signal::SIGPIPE => 13,
        Signal::SIGALRM => 14,
        Signal::SIGTERM => 15,
        Signal::SIGSTKFLT => 16,
        Signal::SIGCHLD => 17,
        Signal::SIGCONT => 18,
        Signal::SIGSTOP => 19,
        Signal::SIGTSTP => 20,
        Signal::SIGTTIN => 21,
        Signal::SIGTTOU => 22,
        Signal::SIGURG => 23,
        Signal::SIGXCPU => 24,
        Signal::SIGXFSZ => 25,
        Signal::SIGVTALRM => 26,
        Signal::SIGPROF => 27,
        Signal::SIGWINCH => 28,
        Signal::SIGIO => 29,
        Signal::SIGPWR => 30,
        Signal::SIGSYS => 31,
    }
}

impl Signal {
    /// Looks a signal up by its raw number. Every number outside 1..=31 maps
    /// to no known signal and yields `None`.
    pub fn try_from_raw(n: i32) -> (r: Option<Signal>)
        ensures
            r == signal_of(n as int),
    {
        match n {
            1 => Some(Signal::SIGHUP),
            2 => Some(Signal::SIGINT),
            3 => Some(Signal::SIGQUIT),
            4 => Some(Signal::SIGILL),
            5 => Some(Signal::SIGTRAP),
            6 => Some(Signal::SIGABRT),
            7 => Some(Signal::SIGBUS),
            8 => Some(Signal::SIGFPE),
            9 => Some(Signal::SIGKILL),
            10 => Some(Signal::SIGUSR1),
            11 => Some(Signal::SIGSEGV),
            12 => Some(Signal::SIGUSR2),
            13 => Some(Signal::SIGPIPE),
            14 => Some(Signal::SIGALRM),
            15 => Some(Signal::SIGTERM),
            16 => Some(Signal::SIGSTKFLT),
            17 => Some(Signal::SIGCHLD),
            18 => Some(Signal::SIGCONT),
            19 => Some(Signal::SIGSTOP),
            20 => Some(Signal::SIGTSTP),
            21 => Some(Signal::SIGTTIN),
            22 => Some(Signal::SIGTTOU),
            23 => Some(Signal::SIGURG),
            24 => Some(Signal::SIGXCPU),
            25 => Some(Signal::SIGXFSZ),
            26 => Some(Signal::SIGVTALRM),
            27 => Some(Signal::SIGPROF),
            28 => Some(Signal::SIGWINCH),
            29 => Some(Signal::SIGIO),
            30 => Some(Signal::SIGPWR),
            31 => Some(Signal::SIGSYS),
            _ => None,
        }
    }

    /// Returns the raw number of this signal.
    pub fn as_raw(&self) -> (r: i32)
        ensures
            r as int == raw_of_signal(*self),
    {
        match *self {
            Signal::SIGHUP => 1,
            Signal::SIGINT => 2,
            Signal::SIGQUIT => 3,
            Signal::SIGILL => 4,
            Signal::SIGTRAP => 5,
            Signal::SIGABRT => 6,
            Signal::SIGBUS => 7,
            Signal::SIGFPE => 8,
            Signal::SIGKILL => 9,
            Signal::SIGUSR1 => 10,
            Signal::SIGSEGV => 11,
            Signal::SIGUSR2 => 12,
            Signal::SIGPIPE => 13,
            Signal::SIGALRM => 14,
            Signal::SIGTERM => 15,
            Signal::SIGSTKFLT => 16,
            Signal::SIGCHLD => 17,
            Signal::SIGCONT => 18,
            Signal::SIGSTOP => 19,
            Signal::SIGTSTP => 20,
            Signal::SIGTTIN => 21,
            Signal::SIGTTOU => 22,
            Signal::SIGURG => 23,
            Signal::SIGXCPU => 24,
            Signal::SIGXFSZ => 25,
            Signal::SIGVTALRM => 26,
            Signal::SIGPROF => 27,
            Signal::SIGWINCH => 28,
            Signal::SIGIO => 29,
            Signal::SIGPWR => 30,
            Signal::SIGSYS => 31,
        }
    }
}

/// The signal lookup inverts the raw number of every known signal: resolving
/// a signal's own number always finds that signal back.
pub proof fn lemma_signal_round_trip(s: Signal)
    ensures
        signal_of(raw_of_signal(s)) == Some(s),
{
}

} // verus!
