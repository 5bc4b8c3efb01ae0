//! What a throw carries.

use vstd::prelude::*;

verus! {

/// A reference to the object that the foreign runtime threw.
///
/// The bridge never looks inside a thrown object. It knows it by its address
/// alone, and it tells apart only the reference to no object at all, which is
/// as legal to throw and to catch as any other.
#[derive(Clone, Copy, Debug, PartialEq, Eq, Structural)]
pub enum Exception {
    /// The reference to no object.
    Null,
    /// The object at `addr`.
    Object { addr: usize },
}

impl Exception {
    /// An `Object` never sits at address zero: that address is `Null`'s.
    pub open spec fn wf(self) -> bool {
        self matches Exception::Object { addr } ==> addr != 0
    }

    /// The address that the runtime knows this reference by.
    pub open spec fn address(self) -> usize {
        match self {
            Exception::Null => 0,
            Exception::Object { addr } => addr,
        }
    }

    /// The reference that the runtime knows by `addr`.
    pub open spec fn at(addr: usize) -> Exception {
        if addr == 0 {
            Exception::Null
        } else {
            Exception::Object { addr }
        }
    }

    /// The reference to no object.
    pub fn null() -> (e: Exception)
        ensures
            e == Exception::Null,
            e.wf(),
    {
        Exception::Null
    }

    /// The reference that the runtime knows by `addr`.
    pub fn from_addr(addr: usize) -> (e: Exception)
        ensures
            e == Exception::at(addr),
            e.wf(),
            e.address() == addr,
    {
        if addr == 0 {
            Exception::Null
        } else {
            Exception::Object { addr }
        }
    }

    /// The address to hand to the runtime for this reference.
    pub fn addr(&self) -> (a: usize)
        ensures
            a == self.address(),
    {
        match self {
            Exception::Null => 0,
            Exception::Object { addr } => *addr,
        }
    }

    /// Whether this is the reference to no object.
    pub fn is_null(&self) -> (b: bool)
        ensures
            b == (self.address() == 0),
    {
        self.addr() == 0
    }

    /// Every address names exactly one well-formed reference, and that
    /// reference gives the address back.
    pub proof fn law_address_round_trip(addr: usize)
        ensures
            Exception::at(addr).wf(),
            Exception::at(addr).address() == addr,
            forall|e: Exception| e.wf() && e.address() == addr ==> e == Exception::at(addr),
    {
    }

    /// Only `Null` is known by address zero.
    pub proof fn law_null_is_zero(e: Exception)
        requires
            e.wf(),
        ensures
            e.address() == 0 <==> e == Exception::Null,
    {
    }
}

} // verus!
