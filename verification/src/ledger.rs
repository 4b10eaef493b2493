//! The replay ledger and the balance movements of the claim path.
//!
//! The ledger is a set of consumed nonces, scoped per issuing project. Its
//! one operation is create-if-absent: inserting a record fails exactly when
//! one with the same `(project_reference, nonce)` key already exists, which
//! makes the replay check and the consumption write one atomic step.

use vstd::prelude::*;
use crate::errors::AirdropError;
use crate::state::ClaimNullifier;

verus! {

/// The set of replay records consumed so far.
#[derive(Clone, Debug, PartialEq, Eq)]
pub struct NullifierLedger {
    pub records: Vec<ClaimNullifier>,
}

impl NullifierLedger {
    /// Whether a record with the given key exists.
    pub open spec fn contains_key(self, project_reference: u64, nonce: u64) -> bool {
        exists|i: int|
            0 <= i < self.records@.len() && (#[trigger] self.records@[i]).project_reference
                == project_reference && self.records@[i].nonce == nonce
    }

    /// At most one record per `(project_reference, nonce)` key.
    pub open spec fn well_formed(self) -> bool {
        forall|i: int, j: int|
            0 <= i < j < self.records@.len() ==> !((#[trigger] self.records@[i]).project_reference
                == (#[trigger] self.records@[j]).project_reference && self.records@[i].nonce
                == self.records@[j].nonce)
    }

    /// An empty ledger.
    pub fn new() -> (r: NullifierLedger)
        ensures
            r.records@.len() == 0,
            r.well_formed(),
    {
        NullifierLedger { records: Vec::new() }
    }

    /// Scans for a record with the given key.
    pub fn lookup(&self, project_reference: u64, nonce: u64) -> (r: bool)
        ensures
            r <==> self.contains_key(project_reference, nonce),
    {
        let mut i: usize = 0;
        while i < self.records.len()
            invariant
                0 <= i <= self.records@.len(),
                forall|j: int|
                    0 <= j < i ==> !((#[trigger] self.records@[j]).project_reference
                        == project_reference && self.records@[j].nonce == nonce),
            decreases self.records@.len() - i,
        {
            if self.records[i].project_reference == project_reference && self.records[i].nonce
                == nonce {
                return true;
            }
            i = i + 1;
        }
        false
    }

    /// Scans the whole ledger for duplicate keys, so that an unverified host
    /// can test well-formedness before it hands the ledger to the claim path.
    pub fn check_well_formed(&self) -> (r: bool)
        ensures
            r <==> self.well_formed(),
    {
        let mut i: usize = 0;
        while i < self.records.len()
            invariant
                0 <= i <= self.records@.len(),
                forall|p: int, q: int|
                    0 <= p < q < self.records@.len() && p < i ==> !((
                    #[trigger] self.records@[p]).project_reference
                        == (#[trigger] self.records@[q]).project_reference
                        && self.records@[p].nonce == self.records@[q].nonce),
            decreases self.records@.len() - i,
        {
            let mut j: usize = i + 1;
            while j < self.records.len()
                invariant
                    0 <= i < j <= self.records@.len(),
                    forall|q: int|
                        i < q < j ==> !((#[trigger] self.records@[q]).project_reference
                            == self.records@[i as int].project_reference && self.records@[q].nonce
                            == self.records@[i as int].nonce),
                decreases self.records@.len() - j,
            {
                if self.records[j].project_reference == self.records[i].project_reference
                    && self.records[j].nonce == self.records[i].nonce {
                    return false;
                }
                j = j + 1;
            }
            i = i + 1;
        }
        true
    }

    /// Inserts a record unless one with the same key exists. On collision the
    /// ledger is unchanged and the operation fails with `NonceAlreadyUsed`,
    /// which distinguishes a genuine replay from any first-time failure.
    pub fn create_if_absent(&mut self, record: ClaimNullifier) -> (r: Result<(), AirdropError>)
        requires
            old(self).well_formed(),
        ensures
            final(self).well_formed(),
            r is Ok <==> !old(self).contains_key(record.project_reference, record.nonce),
            r is Ok ==> final(self).records@ == old(self).records@.push(record),
            r is Err ==> *final(self) == *old(self),
            r matches Err(e) ==> e == AirdropError::NonceAlreadyUsed,
    {
        if self.lookup(record.project_reference, record.nonce) {
            return Err(AirdropError::NonceAlreadyUsed);
        }
        self.records.push(record);
        Ok(())
    }

    /// Removes the most recently inserted record: the storage layer's
    /// transactional rollback, used when a later step of the same claim
    /// aborts.
    pub fn rollback_last(&mut self)
        requires
            old(self).records@.len() >= 1,
        ensures
            final(self).records@ == old(self).records@.drop_last(),
    {
        let _dropped = self.records.pop();
    }
}

/// Moves `amount` between two balances, as the token-transfer facility does:
/// it fails, changing nothing, exactly when the source lacks the amount or
/// the destination would overflow.
pub fn transfer_spl(from_balance: &mut u64, to_balance: &mut u64, amount: u64) -> (r: Result<
    (),
    AirdropError,
>)
    ensures
        r is Ok <==> (*old(from_balance) >= amount && *old(to_balance) + amount <= u64::MAX),
        r is Ok ==> *final(from_balance) == *old(from_balance) - amount && *final(to_balance)
            == *old(to_balance) + amount,
        r is Err ==> *final(from_balance) == *old(from_balance) && *final(to_balance) == *old(
            to_balance,
        ),
        r matches Err(e) ==> e == AirdropError::TransferFailed,
{
    if *from_balance < amount {
        return Err(AirdropError::TransferFailed);
    }
    if *to_balance > u64::MAX - amount {
        return Err(AirdropError::TransferFailed);
    }
    *from_balance = *from_balance - amount;
    *to_balance = *to_balance + amount;
    Ok(())
}

/// Moves `amount` of the native balance between two accounts, with the same
/// checked arithmetic: failure changes nothing.
pub fn transfer_native(from_lamports: &mut u64, to_lamports: &mut u64, amount: u64) -> (r: Result<
    (),
    AirdropError,
>)
    ensures
        r is Ok <==> (*old(from_lamports) >= amount && *old(to_lamports) + amount <= u64::MAX),
        r is Ok ==> *final(from_lamports) == *old(from_lamports) - amount && *final(to_lamports)
            == *old(to_lamports) + amount,
        r is Err ==> *final(from_lamports) == *old(from_lamports) && *final(to_lamports) == *old(
            to_lamports,
        ),
        r matches Err(e) ==> e == AirdropError::TransferFailed,
{
    let from_new = match from_lamports.checked_sub(amount) {
        Some(v) => v,
        None => {
            return Err(AirdropError::TransferFailed);
        },
    };
    let to_new = match to_lamports.checked_add(amount) {
        Some(v) => v,
        None => {
            return Err(AirdropError::TransferFailed);
        },
    };
    *from_lamports = from_new;
    *to_lamports = to_new;
    Ok(())
}

} // verus!
