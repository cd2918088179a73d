use vstd::prelude::*;

verus! {

/// Caller-chosen identifier that ties a registration to the events it yields.
#[derive(Clone, Copy, Debug, PartialEq, Eq, Hash, Structural)]
pub struct Token(pub usize);

/// Readiness a caller asks for: readable, writable, or both. Never empty.
#[derive(Clone, Copy, Debug, PartialEq, Eq, Hash, Structural)]
pub struct Interest {
    readable: bool,
    writable: bool,
}

impl Interest {
    /// Whether read readiness is requested.
    pub closed spec fn reads(self) -> bool {
        self.readable
    }

    /// Whether write readiness is requested.
    pub closed spec fn writes(self) -> bool {
        self.writable
    }

    /// Read interest alone, as a value of specifications.
    pub closed spec fn read_only() -> Interest {
        Interest { readable: true, writable: false }
    }

    /// Read-only interest asks for reads and not writes.
    pub proof fn read_only_reads()
        ensures
            Self::read_only().reads() && !Self::read_only().writes(),
    {
    }

    /// Read interest alone.
    pub fn readable() -> (r: Interest)
        ensures
            r == Self::read_only(),
            r.reads() && !r.writes(),
    {
        Interest { readable: true, writable: false }
    }

    /// Write interest alone.
    pub fn writable() -> (r: Interest)
        ensures
            !r.reads() && r.writes(),
    {
        Interest { readable: false, writable: true }
    }

    /// The union of two interest sets.
    pub fn add(self, other: Interest) -> (r: Interest)
        ensures
            r.reads() == (self.reads() || other.reads()),
            r.writes() == (self.writes() || other.writes()),
    {
        Interest { readable: self.readable || other.readable, writable: self.writable || other.writable }
    }

    /// Whether read readiness is requested.
    pub fn is_readable(&self) -> (r: bool)
        ensures
            r == self.reads(),
    {
        self.readable
    }

    /// Whether write readiness is requested.
    pub fn is_writable(&self) -> (r: bool)
        ensures
            r == self.writes(),
    {
        self.writable
    }
}

} // verus!
