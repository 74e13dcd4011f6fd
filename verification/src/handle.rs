//! Handles: the addresses of objects that the engine made and still owns.

use vstd::prelude::*;

verus! {

/// The address of an engine object other than a column family: a database,
/// an options object, a snapshot or an iterator. It is never null.
#[derive(Clone, Copy, Debug, PartialEq, Eq, Structural)]
pub struct Handle {
    addr: usize,
}

impl Handle {
    #[verifier::type_invariant]
    spec fn never_null(self) -> bool {
        self.addr != 0
    }

    /// The address that the handle stands for.
    pub closed spec fn address(self) -> usize {
        self.addr
    }

    /// Makes a handle of an address that the engine returned, unless the
    /// address is null.
    pub fn new(addr: usize) -> (r: Option<Handle>)
        ensures
            r.is_some() <==> addr != 0,
            r matches Some(h) ==> h == Self::at(addr) && h.address() == addr,
    {
        if addr == 0 {
            None
        } else {
            Some(Handle { addr })
        }
    }

    /// The address, to hand back to the engine.
    pub fn addr(&self) -> (r: usize)
        ensures
            r == self.address(),
            r != 0,
    {
        proof {
            use_type_invariant(self);
        }
        self.addr
    }

    /// The handle that stands for `addr`.
    pub closed spec fn at(addr: usize) -> Handle {
        Handle { addr }
    }

    /// A handle is known by its address.
    pub proof fn lemma_at_address(self)
        ensures
            self == Self::at(self.address()),
    {
    }
}

/// The address of a column family of an open database. It is never null.
#[derive(Clone, Copy, Debug, PartialEq, Eq, Structural)]
pub struct DBCFHandle {
    addr: usize,
}

impl DBCFHandle {
    #[verifier::type_invariant]
    spec fn never_null(self) -> bool {
        self.addr != 0
    }

    /// The address that the handle stands for.
    pub closed spec fn address(self) -> usize {
        self.addr
    }

    /// Makes a handle of an address that the engine returned, unless the
    /// address is null.
    pub fn new(addr: usize) -> (r: Option<DBCFHandle>)
        ensures
            r.is_some() <==> addr != 0,
            r matches Some(h) ==> h == Self::at(addr) && h.address() == addr,
    {
        if addr == 0 {
            None
        } else {
            Some(DBCFHandle { addr })
        }
    }

    /// The address, to hand back to the engine.
    pub fn addr(&self) -> (r: usize)
        ensures
            r == self.address(),
            r != 0,
    {
        proof {
            use_type_invariant(self);
        }
        self.addr
    }

    /// The handle that stands for `addr`.
    pub closed spec fn at(addr: usize) -> DBCFHandle {
        DBCFHandle { addr }
    }

    /// A handle is known by its address.
    pub proof fn lemma_at_address(self)
        ensures
            self == Self::at(self.address()),
    {
    }
}

} // verus!
