//! The entrant ledger: an append-only, capacity-bounded sequence of buyer
//! identities, packed into a fixed-size storage region.
//!
//! The region starts with a fixed-size header (the host storage layer's
//! record tag plus the serialized `total` and `max` counters) and then holds
//! `max` contiguous 32-byte slots. Each append writes exactly one identity
//! at offset `BASE_SIZE + 32 * total` and then increments `total`.

use vstd::prelude::*;
use crate::errors::RaffleError;
use crate::keys::Pubkey;

verus! {

/// Bytes reserved at the front of the storage region: an 8-byte record tag
/// plus the two 4-byte counters.
pub const BASE_SIZE: usize = 8 + 4 + 4;

/// The byte offset of entrant slot `i` inside the storage region.
pub open spec fn slot_start(i: int) -> int {
    BASE_SIZE as int + 32 * i
}

/// The 32 bytes of entrant slot `i`.
pub open spec fn entrant_at(data: Seq<u8>, i: int) -> Seq<u8> {
    data.subrange(slot_start(i), slot_start(i) + 32)
}

/// The header counters of the entrant ledger.
///
/// The backing storage region travels beside this header as a plain byte
/// vector; `entrants_wf` ties the two together.
#[derive(Clone, Copy, Debug, PartialEq, Eq, Structural)]
pub struct Entrants {
    /// Tickets sold so far.
    pub total: u32,
    /// Capacity, fixed at creation.
    pub max: u32,
}

/// Well-formedness of a ledger and its backing region: the count never
/// exceeds the capacity, and the region has room for `max` slots.
pub open spec fn entrants_wf(e: Entrants, data: Seq<u8>) -> bool {
    &&& e.total <= e.max
    &&& data.len() >= slot_start(e.max as int)
}

/// The sequence of identities recorded so far, in purchase order.
pub open spec fn entrants_view(e: Entrants, data: Seq<u8>) -> Seq<Seq<u8>> {
    Seq::new(e.total as nat, |i: int| entrant_at(data, i))
}

impl Entrants {
    /// Reads the identity stored in slot `index` of the backing region.
    ///
    /// A pure projection: the region is not changed.
    pub fn get_entrant(entrants_data: &Vec<u8>, index: usize) -> (r: Pubkey)
        requires
            slot_start(index as int) + 32 <= entrants_data@.len(),
        ensures
            r@ == entrant_at(entrants_data@, index as int),
    {
        let len = entrants_data.len();
        assert(slot_start(index as int) + 32 <= len as int);
        let start_index: usize = BASE_SIZE + 32 * index;
        let mut bytes: [u8; 32] = [0u8; 32];
        let mut j: usize = 0;
        while j < 32
            invariant
                j <= 32,
                start_index == slot_start(index as int),
                start_index + 32 <= len,
                len == entrants_data@.len(),
                forall|k: int| 0 <= k < j ==> bytes@[k] == entrants_data@[start_index + k],
            decreases 32 - j,
        {
            bytes[j] = entrants_data[start_index + j];
            j = j + 1;
        }
        proof {
            assert(bytes@ =~= entrant_at(entrants_data@, index as int));
        }
        Pubkey::new(bytes)
    }

    /// Appends one identity to the ledger, or rejects the append when the
    /// ledger is already full. On success exactly the 32 bytes of slot
    /// `total` are written and `total` is incremented; on failure nothing
    /// changes.
    pub fn append_entrant(
        &mut self,
        entrants_data: &mut Vec<u8>,
        entrant: Pubkey,
    ) -> (r: Result<(), RaffleError>)
        requires
            entrants_wf(*old(self), old(entrants_data)@),
        ensures
            entrants_wf(*final(self), final(entrants_data)@),
            final(self).max == old(self).max,
            final(entrants_data)@.len() == old(entrants_data)@.len(),
            r is Ok <==> old(self).total < old(self).max,
            old(self).total < old(self).max ==> {
                &&& final(self).total == old(self).total + 1
                &&& entrants_view(*final(self), final(entrants_data)@)
                    == entrants_view(*old(self), old(entrants_data)@).push(entrant@)
                &&& forall|k: int|
                    0 <= k < old(entrants_data)@.len()
                        && !(slot_start(old(self).total as int) <= k
                            < slot_start(old(self).total as int) + 32)
                        ==> final(entrants_data)@[k] == old(entrants_data)@[k]
            },
            old(self).total >= old(self).max ==> {
                &&& r == Err::<(), RaffleError>(RaffleError::NotEnoughTicketsLeft)
                &&& *final(self) == *old(self)
                &&& final(entrants_data)@ == old(entrants_data)@
            },
    {
        if self.total >= self.max {
            return Err(RaffleError::NotEnoughTicketsLeft);
        }
        let len = entrants_data.len();
        assert(32 * (self.total as int) + 32 <= 32 * (self.max as int));
        let current_index: usize = BASE_SIZE + 32 * (self.total as usize);
        let mut j: usize = 0;
        while j < 32
            invariant
                j <= 32,
                self == old(self),
                old(self).total < old(self).max,
                entrants_wf(*old(self), old(entrants_data)@),
                current_index == slot_start(old(self).total as int),
                current_index + 32 <= len,
                len == entrants_data@.len(),
                entrants_data@.len() == old(entrants_data)@.len(),
                forall|k: int| 0 <= k < j ==> entrants_data@[current_index + k] == entrant@[k],
                forall|k: int|
                    0 <= k < old(entrants_data)@.len()
                        && !(current_index <= k < current_index + 32)
                        ==> entrants_data@[k] == old(entrants_data)@[k],
            decreases 32 - j,
        {
            entrants_data[current_index + j] = entrant.bytes[j];
            j = j + 1;
        }
        self.total = self.total + 1;
        proof {
            let pre = old(entrants_data)@;
            let post = entrants_data@;
            let t = old(self).total as int;
            assert forall|i: int| 0 <= i < t implies entrant_at(post, i) == entrant_at(pre, i) by {
                assert(entrant_at(post, i) =~= entrant_at(pre, i));
            };
            assert(entrant_at(post, t) =~= entrant@);
            assert(entrants_view(*self, post) =~= entrants_view(*old(self), pre).push(entrant@));
        }
        Ok(())
    }
}

} // verus!
