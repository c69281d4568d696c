use vstd::prelude::*;

verus! {

/// An operating-system error, carried as the raw `errno` value the failing
/// call reported. This layer never retries or rewrites such errors: they are
/// surfaced to the caller unchanged.
#[derive(Clone, Copy, Debug, PartialEq, Eq, Hash, Structural)]
pub struct Errno {
    raw: i32,
}

impl View for Errno {
    type V = int;

    closed spec fn view(&self) -> int {
        self.raw as int
    }
}

/// The raw `errno` value that says a system call is not available on the
/// running kernel, under the common Linux numbering.
pub const ENOSYS: i32 = 38;

impl Errno {
    /// The error holding the given raw value.
    pub closed spec fn spec_from_raw(raw: i32) -> Errno {
        Errno { raw }
    }

    /// Wraps a raw `errno` value.
    pub fn from_raw(raw: i32) -> (r: Errno)
        ensures
            r@ == raw as int,
            r == Errno::spec_from_raw(raw),
    {
        Errno { raw }
    }

    /// Returns the raw `errno` value.
    pub fn as_raw(&self) -> (r: i32)
        ensures
            r as int == self@,
    {
        self.raw
    }
}

} // verus!
