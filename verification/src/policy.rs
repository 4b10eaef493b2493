//! The distributor authorization policy.
//!
//! Two policies are supported: all-required, where every configured
//! distributor must appear among the extracted signers, and exact-match,
//! where one configured distributor must appear. Extra signers and
//! duplicates are ignored by both.

use vstd::prelude::*;
use crate::errors::AirdropError;
use crate::pubkey::Pubkey;
use crate::pubkey::pubkey_eq;

verus! {

/// Whether some signer in the list carries exactly the bytes of `key`.
pub open spec fn signers_contain(signers: Seq<Pubkey>, key: Pubkey) -> bool {
    exists|i: int| 0 <= i < signers.len() && signers[i]@ == key@
}

/// The all-required policy: every configured distributor appears among the
/// signers. Set containment and nothing more — order, duplicates and extra
/// signers are all irrelevant.
pub open spec fn distributors_satisfied(signers: Seq<Pubkey>, distributors: Seq<Pubkey>) -> bool {
    forall|i: int|
        0 <= i < distributors.len() ==> signers_contain(signers, #[trigger] distributors[i])
}

/// Scans the signer list for `key`.
pub fn find_signer(signers: &Vec<Pubkey>, key: &Pubkey) -> (r: bool)
    ensures
        r <==> signers_contain(signers@, *key),
{
    let mut i: usize = 0;
    while i < signers.len()
        invariant
            0 <= i <= signers@.len(),
            forall|j: int| 0 <= j < i ==> signers@[j]@ != key@,
        decreases signers@.len() - i,
    {
        if pubkey_eq(&signers[i], key) {
            return true;
        }
        i = i + 1;
    }
    false
}

/// Checks the all-required policy: fails with `DistributorMismatch` exactly
/// when some configured distributor did not sign.
pub fn check_distributors(signers: &Vec<Pubkey>, distributors: &Vec<Pubkey>) -> (r: Result<
    (),
    AirdropError,
>)
    ensures
        r is Ok <==> distributors_satisfied(signers@, distributors@),
        r matches Err(e) ==> e == AirdropError::DistributorMismatch,
{
    let mut i: usize = 0;
    while i < distributors.len()
        invariant
            0 <= i <= distributors@.len(),
            forall|j: int| 0 <= j < i ==> signers_contain(signers@, #[trigger] distributors@[j]),
        decreases distributors@.len() - i,
    {
        if !find_signer(signers, &distributors[i]) {
            return Err(AirdropError::DistributorMismatch);
        }
        i = i + 1;
    }
    Ok(())
}

/// Checks the exact-match policy of the single-distributor variant: the one
/// configured distributor must appear among the signers.
pub fn check_distributor_exact(signers: &Vec<Pubkey>, distributor: &Pubkey) -> (r: Result<
    (),
    AirdropError,
>)
    ensures
        r is Ok <==> signers_contain(signers@, *distributor),
        r matches Err(e) ==> e == AirdropError::DistributorMismatch,
{
    if find_signer(signers, distributor) {
        Ok(())
    } else {
        Err(AirdropError::DistributorMismatch)
    }
}

/// A signer list that lacks any one required distributor never satisfies the
/// all-required policy.
pub proof fn lemma_policy_requires_every_distributor(
    signers: Seq<Pubkey>,
    distributors: Seq<Pubkey>,
    i: int,
)
    requires
        0 <= i < distributors.len(),
        !signers_contain(signers, distributors[i]),
    ensures
        !distributors_satisfied(signers, distributors),
{
}

/// Removing the sole signature of a required distributor from a signer list
/// that satisfies the all-required policy breaks the policy.
pub proof fn lemma_removing_sole_distributor_signature_breaks_policy(
    signers: Seq<Pubkey>,
    distributors: Seq<Pubkey>,
    si: int,
    di: int,
)
    requires
        0 <= si < signers.len(),
        0 <= di < distributors.len(),
        signers[si]@ == distributors[di]@,
        forall|j: int| 0 <= j < signers.len() && j != si ==> signers[j]@ != distributors[di]@,
    ensures
        !distributors_satisfied(signers.remove(si), distributors),
{
    let removed = signers.remove(si);
    assert forall|k: int| 0 <= k < removed.len() implies removed[k]@ != distributors[di]@ by {
        if k < si {
            assert(removed[k] == signers[k]);
        } else {
            assert(removed[k] == signers[k + 1]);
        }
    }
    assert(!signers_contain(removed, distributors[di]));
}

/// Appending any extra signer preserves the all-required policy: extra,
/// non-required signers never break a valid authorization.
pub proof fn lemma_policy_tolerates_extra_signers(
    signers: Seq<Pubkey>,
    extra: Pubkey,
    distributors: Seq<Pubkey>,
)
    requires
        distributors_satisfied(signers, distributors),
    ensures
        distributors_satisfied(signers.push(extra), distributors),
{
    let pushed = signers.push(extra);
    assert forall|i: int| 0 <= i < distributors.len() implies signers_contain(
        pushed,
        #[trigger] distributors[i],
    ) by {
        let w = choose|k: int| 0 <= k < signers.len() && signers[k]@ == distributors[i]@;
        assert(pushed[w]@ == distributors[i]@);
    }
}

} // verus!
