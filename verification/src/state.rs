//! The fixed-size record kept inside the custodial account.

use vstd::prelude::*;
use crate::address::{all_zero, Address};
use crate::error::VaultError;

verus! {

/// Number of bytes of the stored record: two 32-byte authority identifiers,
/// no padding, no version tag.
pub const RECORD_LEN: usize = 64;

/// The 64-byte layout of a record: the original withdraw authority followed
/// by the rewards authority.
pub open spec fn record_of(original: Seq<u8>, rewards: Seq<u8>) -> Seq<u8> {
    original + rewards
}

/// The first stored field: who held the withdraw authority before custody.
pub open spec fn original_authority_of(data: Seq<u8>) -> Seq<u8> {
    data.subrange(0, 32)
}

/// The second stored field: who may claim rewards while under custody.
pub open spec fn rewards_authority_of(data: Seq<u8>) -> Seq<u8> {
    data.subrange(32, 64)
}

/// Reading the two fields back out of a serialized record yields exactly
/// the two authorities that were written.
pub proof fn lemma_record_fields(original: Seq<u8>, rewards: Seq<u8>)
    requires
        original.len() == 32,
        rewards.len() == 32,
    ensures
        record_of(original, rewards).len() == 64,
        original_authority_of(record_of(original, rewards)) == original,
        rewards_authority_of(record_of(original, rewards)) == rewards,
{
    assert(original_authority_of(record_of(original, rewards)) =~= original);
    assert(rewards_authority_of(record_of(original, rewards)) =~= rewards);
}

/// A record written with at least one non-zero authority is not the
/// uninitialized sentinel.
pub proof fn lemma_record_populated(original: Seq<u8>, rewards: Seq<u8>)
    requires
        original.len() == 32,
        rewards.len() == 32,
        !all_zero(original) || !all_zero(rewards),
    ensures
        !all_zero(record_of(original, rewards)),
{
    if !all_zero(original) {
        let i = choose|i: int| 0 <= i < 32 && original[i] != 0u8;
        assert(record_of(original, rewards)[i] == original[i]);
    } else {
        let i = choose|i: int| 0 <= i < 32 && rewards[i] != 0u8;
        assert(record_of(original, rewards)[32 + i] == rewards[i]);
    }
}

/// State stored in the custodial account while a vote account is vaulted.
/// An all-zero record means "uninitialized or closed"; a populated record
/// means custody is active.
#[derive(Clone, Copy, Debug, PartialEq, Eq)]
pub struct RewardsVaultState {
    pub original_withdraw_authority: Address,
    pub rewards_authority: Address,
}

impl RewardsVaultState {
    /// Size in bytes of the serialized record.
    pub fn size_of() -> (r: usize)
        ensures
            r == RECORD_LEN,
    {
        RECORD_LEN
    }

    /// The record with both authorities zero: the uninitialized sentinel.
    pub fn zeroed() -> (r: RewardsVaultState)
        ensures
            all_zero(r.original_withdraw_authority@),
            all_zero(r.rewards_authority@),
    {
        RewardsVaultState {
            original_withdraw_authority: Address::zeroed(),
            rewards_authority: Address::zeroed(),
        }
    }

    /// Whether both stored authorities are zero.
    pub fn is_zeroed(&self) -> (r: bool)
        ensures
            r == (all_zero(self.original_withdraw_authority@)
                && all_zero(self.rewards_authority@)),
    {
        self.original_withdraw_authority.is_zero() && self.rewards_authority.is_zero()
    }

    /// Serialize the record into its fixed 64-byte layout.
    pub fn to_bytes(&self) -> (r: Vec<u8>)
        ensures
            r@ == record_of(self.original_withdraw_authority@, self.rewards_authority@),
    {
        let mut out: Vec<u8> = Vec::new();
        let mut i: usize = 0;
        while i < 32
            invariant
                i <= 32,
                out@.len() == i,
                forall|j: int| 0 <= j < i ==> out@[j] == self.original_withdraw_authority@[j],
            decreases 32 - i,
        {
            out.push(self.original_withdraw_authority.bytes[i]);
            i += 1;
        }
        let mut k: usize = 0;
        while k < 32
            invariant
                k <= 32,
                out@.len() == 32 + k,
                forall|j: int| 0 <= j < 32 ==> out@[j] == self.original_withdraw_authority@[j],
                forall|j: int| 0 <= j < k ==> out@[32 + j] == self.rewards_authority@[j],
            decreases 32 - k,
        {
            out.push(self.rewards_authority.bytes[k]);
            k += 1;
        }
        proof {
            assert(out@ =~= record_of(
                self.original_withdraw_authority@,
                self.rewards_authority@,
            ));
        }
        out
    }

    /// Parse a record from raw account data. Exactly the accepted layouts
    /// succeed: the data must be exactly 64 bytes, and the two stored fields
    /// are read back in order.
    pub fn try_from_bytes(data: &[u8]) -> (r: Result<RewardsVaultState, VaultError>)
        ensures
            data@.len() == RECORD_LEN <==> r is Ok,
            r matches Ok(s) ==> {
                &&& s.original_withdraw_authority@ == original_authority_of(data@)
                &&& s.rewards_authority@ == rewards_authority_of(data@)
            },
            r matches Err(e) ==> e == VaultError::InvalidAccountData,
    {
        if data.len() != RECORD_LEN {
            return Err(VaultError::InvalidAccountData);
        }
        let mut original: [u8; 32] = [0u8; 32];
        let mut rewards: [u8; 32] = [0u8; 32];
        let mut i: usize = 0;
        while i < 32
            invariant
                i <= 32,
                data@.len() == 64,
                forall|j: int| 0 <= j < i ==> original@[j] == data@[j],
            decreases 32 - i,
        {
            original[i] = *vstd::slice::slice_index_get(data, i);
            i += 1;
        }
        let mut k: usize = 0;
        while k < 32
            invariant
                k <= 32,
                data@.len() == 64,
                forall|j: int| 0 <= j < 32 ==> original@[j] == data@[j],
                forall|j: int| 0 <= j < k ==> rewards@[j] == data@[32 + j],
            decreases 32 - k,
        {
            rewards[k] = *vstd::slice::slice_index_get(data, 32 + k);
            k += 1;
        }
        let s = RewardsVaultState {
            original_withdraw_authority: Address { bytes: original },
            rewards_authority: Address { bytes: rewards },
        };
        proof {
            assert(s.original_withdraw_authority@ =~= original_authority_of(data@));
            assert(s.rewards_authority@ =~= rewards_authority_of(data@));
        }
        Ok(s)
    }
}

} // verus!
