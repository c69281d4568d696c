use vstd::prelude::*;

verus! {

/// A process identifier, exactly as the kernel reports it: a plain signed
/// integer. Zero and negative values carry alternate meanings only when a
/// wait target is resolved from them.
#[derive(Clone, Copy, Debug, PartialEq, Eq, Hash, Structural)]
pub struct Pid {
    raw: i32,
}

impl View for Pid {
    type V = int;

    closed spec fn view(&self) -> int {
        self.raw as int
    }
}

impl Pid {
    /// The process id holding the given raw value.
    pub closed spec fn spec_from_raw(raw: i32) -> Pid {
        Pid { raw }
    }

    /// Wraps a raw kernel process id.
    pub fn from_raw(raw: i32) -> (r: Pid)
        ensures
            r@ == raw as int,
            r == Pid::spec_from_raw(raw),
    {
        Pid { raw }
    }

    /// Returns the raw kernel process id.
    pub fn as_raw(&self) -> (r: i32)
        ensures
            r as int == self@,
    {
        self.raw
    }
}

/// A process id is nothing but its raw value: wrapping the raw value a
/// process id views to yields that process id back.
pub proof fn lemma_pid_from_view(p: Pid, raw: i32)
    requires
        p@ == raw as int,
    ensures
        Pid::spec_from_raw(raw) == p,
{
}

/// The raw value a wrapped process id views to is the value it was built
/// from.
pub proof fn lemma_pid_view(raw: i32)
    ensures
        Pid::spec_from_raw(raw)@ == raw as int,
{
}

} // verus!
