//! The membership record: the program's own durable note of who holds a
//! pass, of which tier, until when.

use crate::address::{address_of, lemma_address_of, Address};
use vstd::bytes::{
    lemma_auto_spec_u64_to_from_le_bytes, spec_u64_from_le_bytes, spec_u64_to_le_bytes,
    u64_from_le_bytes, u64_to_le_bytes,
};
use vstd::prelude::*;
use vstd::slice::slice_subrange;

verus! {

/// Tier, expiry and owner of one pass. Written once when the pass is
/// issued; nothing updates or deletes it afterwards.
#[derive(Clone, Copy, Debug, PartialEq, Eq)]
pub struct Membership {
    /// The caller who had the pass issued.
    pub owner: Address,
    /// The tier of the pass, as the caller gave it.
    pub tier: u8,
    /// Seconds since the epoch at which the pass expires, as the caller gave
    /// them. They are recorded, not checked: readers decide what an expiry in
    /// the past means.
    pub expiry: i64,
    /// The bump that fixes the record's address.
    pub bump: u8,
}

impl Membership {
    /// Bytes the record takes when persisted: 32 for the owner, 1 for the
    /// tier, 8 for the expiry, 1 for the bump.
    pub const INIT_SPACE: usize = 42;

    /// The record as it is provisioned, before anything is written to it.
    pub open spec fn blank() -> Membership {
        Membership { owner: Address::zero(), tier: 0, expiry: 0, bump: 0 }
    }

    /// A record with every byte zero.
    pub fn zeroed() -> (record: Membership)
        ensures
            record == Membership::blank(),
    {
        Membership { owner: Address::zeroed(), tier: 0, expiry: 0, bump: 0 }
    }

    /// The record of a pass of `tier` for `owner`, valid until `expiry`.
    pub fn new(owner: Address, tier: u8, expiry: i64, bump: u8) -> (record: Membership)
        ensures
            record == (Membership { owner, tier, expiry, bump }),
    {
        Membership { owner, tier, expiry, bump }
    }
}

/// The 64 bits of an expiry in two's complement, as an unsigned number.
pub open spec fn expiry_bits(expiry: i64) -> u64 {
    if expiry >= 0 {
        expiry as u64
    } else {
        (expiry + 0x1_0000_0000_0000_0000) as u64
    }
}

/// The expiry whose 64 bits in two's complement are `bits`.
pub open spec fn expiry_of(bits: u64) -> i64 {
    if bits < 0x8000_0000_0000_0000 {
        bits as i64
    } else {
        (bits - 0x1_0000_0000_0000_0000) as i64
    }
}

impl Membership {
    /// The record as it is persisted: the owner's 32 bytes, the tier, the
    /// expiry in 8 bytes with the lowest first, and the bump.
    pub open spec fn packed(self) -> Seq<u8> {
        self.owner@ + seq![self.tier] + spec_u64_to_le_bytes(expiry_bits(self.expiry)) + seq![
            self.bump,
        ]
    }

    /// The record that `bytes` persist, where they are as many as a record
    /// takes.
    pub open spec fn unpacked(bytes: Seq<u8>) -> Option<Membership> {
        if bytes.len() == 42 {
            Some(
                Membership {
                    owner: address_of(bytes.subrange(0, 32)),
                    tier: bytes[32],
                    expiry: expiry_of(spec_u64_from_le_bytes(bytes.subrange(33, 41))),
                    bump: bytes[41],
                },
            )
        } else {
            None
        }
    }

    /// The bytes that persist the record.
    pub fn to_bytes(&self) -> (bytes: Vec<u8>)
        ensures
            bytes@ == self.packed(),
            bytes@.len() == Membership::INIT_SPACE,
    {
        let bits: u64 = if self.expiry >= 0 {
            self.expiry as u64
        } else {
            ((self.expiry - i64::MIN) as u64) + 0x8000_0000_0000_0000u64
        };
        let mut bytes = self.owner.to_seed();
        bytes.push(self.tier);
        let mut expiry = u64_to_le_bytes(bits);
        bytes.append(&mut expiry);
        bytes.push(self.bump);
        proof {
            lemma_auto_spec_u64_to_from_le_bytes();
        }
        bytes
    }

    /// Reads a record from the bytes that persist it; `None` where they
    /// are more or fewer than a record takes.
    pub fn from_bytes(bytes: &[u8]) -> (r: Option<Membership>)
        ensures
            r == Membership::unpacked(bytes@),
    {
        if bytes.len() != Membership::INIT_SPACE {
            return None;
        }
        let mut owner = [0u8; 32];
        let mut i: usize = 0;
        while i < 32
            invariant
                i <= 32,
                bytes@.len() == 42,
                forall|j: int| 0 <= j < i ==> owner[j] == bytes@[j],
            decreases 32 - i,
        {
            owner[i] = bytes[i];
            i += 1;
        }
        let owner = Address { bytes: owner };
        let bits = u64_from_le_bytes(slice_subrange(bytes, 33, 41));
        let expiry: i64 = if bits < 0x8000_0000_0000_0000u64 {
            bits as i64
        } else {
            ((bits - 0x8000_0000_0000_0000u64) as i64) + i64::MIN
        };
        proof {
            assert(owner@ =~= bytes@.subrange(0, 32));
            Address::lemma_view_injective(address_of(bytes@.subrange(0, 32)), owner);
        }
        Some(Membership { owner, tier: bytes[32], expiry, bump: bytes[41] })
    }

    /// A record read back from its bytes is the record that was written.
    pub proof fn lemma_unpack_packed(record: Membership)
        ensures
            Membership::unpacked(record.packed()) == Some(record),
    {
        lemma_auto_spec_u64_to_from_le_bytes();
        let bytes = record.packed();
        let bits = expiry_bits(record.expiry);
        assert(bytes.subrange(0, 32) =~= record.owner@);
        assert(bytes.subrange(33, 41) =~= spec_u64_to_le_bytes(bits));
        Address::lemma_view_injective(address_of(record.owner@), record.owner);
        assert(expiry_of(bits) == record.expiry);
    }

    /// Any 42 bytes persist a record, and that record is written back as
    /// the same bytes.
    pub proof fn lemma_pack_unpacked(bytes: Seq<u8>)
        requires
            bytes.len() == 42,
        ensures
            Membership::unpacked(bytes) matches Some(record) && record.packed() == bytes,
    {
        lemma_auto_spec_u64_to_from_le_bytes();
        let record = Membership::unpacked(bytes)->Some_0;
        lemma_address_of(bytes.subrange(0, 32));
        let bits = spec_u64_from_le_bytes(bytes.subrange(33, 41));
        assert(expiry_bits(expiry_of(bits)) == bits);
        assert(spec_u64_to_le_bytes(bits) == bytes.subrange(33, 41));
        assert(record.packed() =~= bytes);
    }
}

} // verus!
