use vstd::prelude::*;

verus! {

/// Opaque 32-byte identity of a calling party, held as two 128-bit halves.
#[derive(Clone, Copy, Debug, PartialEq, Eq, Structural, Hash)]
pub struct Principal {
    pub high: u128,
    pub low: u128,
}

/// Opaque 32-byte identifier of a dispatched call or an inbound request.
#[derive(Clone, Copy, Debug, PartialEq, Eq, Structural, Hash)]
pub struct CorrelationId {
    pub high: u128,
    pub low: u128,
}

/// Equality of keys by their views, usable from executable code.
pub trait Key: View + Sized {
    fn same(&self, other: &Self) -> (r: bool)
        ensures
            r == (self@ == other@),
    ;
}

impl View for Principal {
    type V = Principal;

    open spec fn view(&self) -> Principal {
        *self
    }
}

impl View for CorrelationId {
    type V = CorrelationId;

    open spec fn view(&self) -> CorrelationId {
        *self
    }
}


impl Principal {
    /// The identity whose first eight bytes are `n` in little-endian order and
    /// whose other bytes are zero.
    pub fn from_u64(n: u64) -> (r: Principal)
        ensures
            r.high == 0,
            r.low == n as u128,
    {
        Principal { high: 0, low: n as u128 }
    }
}

impl CorrelationId {
    /// The identifier whose first eight bytes are `n` in little-endian order and
    /// whose other bytes are zero.
    pub fn from_u64(n: u64) -> (r: CorrelationId)
        ensures
            r.high == 0,
            r.low == n as u128,
    {
        CorrelationId { high: 0, low: n as u128 }
    }
}

impl Key for Principal {
    fn same(&self, other: &Self) -> (r: bool) {
        self.high == other.high && self.low == other.low
    }
}

impl Key for CorrelationId {
    fn same(&self, other: &Self) -> (r: bool) {
        self.high == other.high && self.low == other.low
    }
}

} // verus!
