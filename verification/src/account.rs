//! Fixed-width account identities.
//!
//! An identity is an opaque 32-byte value compared by exact byte equality.
//! The all-zero value is reserved as the null identity: it never denotes a
//! valid account and is rejected as a token owner.

use vstd::prelude::*;

verus! {

/// The number of bytes in an account identity.
pub const ID_WIDTH: usize = 32;

/// An opaque fixed-width account identity.
#[derive(Clone, Copy, Debug, PartialEq, Eq, Hash)]
pub struct AccountId {
    bytes: [u8; 32],
}

impl View for AccountId {
    type V = Seq<u8>;

    closed spec fn view(&self) -> Seq<u8> {
        self.bytes@
    }
}

/// Every identity is exactly `ID_WIDTH` bytes wide.
pub broadcast proof fn lemma_id_width(a: AccountId)
    ensures
        (#[trigger] a@).len() == ID_WIDTH,
{
}

/// The reserved all-zero identity, never a valid owner.
pub open spec fn null_id() -> Seq<u8> {
    Seq::new(ID_WIDTH as nat, |i: int| 0u8)
}

impl AccountId {
    /// Builds an identity from its raw bytes.
    pub fn new(bytes: [u8; 32]) -> (r: AccountId)
        ensures
            r@ == bytes@,
    {
        AccountId { bytes }
    }

    /// The null identity as a value.
    pub fn null() -> (r: AccountId)
        ensures
            r@ == null_id(),
    {
        let bytes: [u8; 32] = [0u8; 32];
        proof {
            assert(bytes@ =~= null_id());
        }
        AccountId { bytes }
    }

    /// True exactly when this identity is the reserved null identity.
    pub fn is_null(&self) -> (r: bool)
        ensures
            r == (self@ == null_id()),
    {
        let mut i: usize = 0;
        while i < ID_WIDTH
            invariant
                0 <= i <= ID_WIDTH,
                forall|j: int| 0 <= j < i ==> self.bytes@[j] == 0u8,
            decreases ID_WIDTH - i,
        {
            if self.bytes[i] != 0u8 {
                proof {
                    assert(self@[i as int] != null_id()[i as int]);
                }
                return false;
            }
            i += 1;
        }
        proof {
            assert(self@ =~= null_id());
        }
        true
    }

    /// Exact byte equality of two identities.
    pub fn same_as(&self, other: &AccountId) -> (r: bool)
        ensures
            r == (self@ == other@),
    {
        let mut i: usize = 0;
        while i < ID_WIDTH
            invariant
                0 <= i <= ID_WIDTH,
                forall|j: int| 0 <= j < i ==> self.bytes@[j] == other.bytes@[j],
            decreases ID_WIDTH - i,
        {
            if self.bytes[i] != other.bytes[i] {
                proof {
                    assert(self@[i as int] != other@[i as int]);
                }
                return false;
            }
            i += 1;
        }
        proof {
            assert(self@ =~= other@);
        }
        true
    }
}

} // verus!
