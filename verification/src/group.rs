//! What names a group and an epoch of it.

use vstd::prelude::*;
use crate::bytes::bytes_equal;
use crate::bytes::copy_bytes;

verus! {

/// The identifier of a group.
#[derive(Debug, PartialEq, Eq)]
pub struct GroupId {
    pub value: Vec<u8>,
}

impl View for GroupId {
    type V = Seq<u8>;

    open spec fn view(&self) -> Seq<u8> {
        self.value@
    }
}

impl GroupId {
    /// The identifier that the bytes are.
    pub fn from_slice(bytes: &[u8]) -> (id: Self)
        ensures
            id@ == bytes@,
    {
        GroupId { value: copy_bytes(bytes) }
    }

    /// The bytes of the identifier.
    pub fn as_slice(&self) -> (b: &[u8])
        ensures
            b@ == self@,
    {
        self.value.as_slice()
    }

    /// A copy of the identifier.
    pub fn duplicate(&self) -> (id: Self)
        ensures
            id@ == self@,
    {
        GroupId { value: copy_bytes(self.value.as_slice()) }
    }

    /// Whether two identifiers are the same.
    pub fn equals(&self, other: &Self) -> (b: bool)
        ensures
            b == (self@ == other@),
    {
        bytes_equal(self.value.as_slice(), other.value.as_slice())
    }
}

/// The number of an epoch of a group.
#[derive(Clone, Copy, Debug, PartialEq, Eq, Structural)]
pub struct GroupEpoch(pub u64);

impl GroupEpoch {
    /// The epoch with the number given.
    pub fn new(epoch: u64) -> (e: Self)
        ensures
            e.0 == epoch,
    {
        GroupEpoch(epoch)
    }

    /// The number of the epoch.
    pub fn as_u64(&self) -> (n: u64)
        ensures
            n == self.0,
    {
        self.0
    }
}

} // verus!
