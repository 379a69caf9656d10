//! The escrow ledger: owns every agreement, assigns sequential identifiers,
//! and exposes the operations that are the entire public surface — deposit,
//! release, refund, and the two read accessors.

use vstd::prelude::*;
use vstd::pervasive::VecAdditionalExecFns;
use crate::agreement::{Agreement, EscrowError, EscrowStatus};

verus! {

/// The collection of all agreements ever created. The agreement with id `i`
/// (ids start at 1) is stored at position `i - 1`; records are never
/// deleted, so the length is also the total ever created.
pub struct EscrowLedger {
    pub agreements: Vec<Agreement>,
}

/// Membership test on a vote record.
fn vec_contains(s: &Vec<u64>, x: u64) -> (b: bool)
    ensures
        b == s@.contains(x),
{
    let mut i: usize = 0;
    while i < s.len()
        invariant
            i <= s@.len(),
            forall|j: int| 0 <= j < i ==> s@[j] != x,
        decreases s@.len() - i,
    {
        if s[i] == x {
            return true;
        }
        i = i + 1;
    }
    false
}

impl EscrowLedger {
    /// Total number of agreements ever created.
    pub open spec fn total(self) -> nat {
        self.agreements@.len()
    }

    /// `id` was returned by some successful deposit on this ledger.
    pub open spec fn has_agreement(self, id: u64) -> bool {
        1 <= id && id as int <= self.agreements@.len()
    }

    /// The current record of agreement `id`.
    pub open spec fn agreement_of(self, id: u64) -> Agreement
        recommends
            self.has_agreement(id),
    {
        self.agreements@[id as int - 1]
    }

    /// Well-formedness: every stored agreement is well-formed and carries
    /// the id matching its position — ids are sequential from 1, never
    /// reused, never reassigned.
    pub open spec fn wf(self) -> bool {
        forall|i: int|
            0 <= i < self.agreements@.len() ==> {
                &&& (#[trigger] self.agreements@[i]).wf()
                &&& self.agreements@[i].id as int == i + 1
            }
    }

    /// An empty ledger: no agreements, counter at zero.
    pub fn new() -> (ledger: EscrowLedger)
        ensures
            ledger.wf(),
            ledger.total() == 0,
    {
        EscrowLedger { agreements: Vec::new() }
    }

    /// Total number of agreements ever created — a monotonic counter,
    /// unaffected by any agreement's status.
    pub fn escrow_count(&self) -> (n: u64)
        ensures
            n == self.total(),
    {
        self.agreements.len() as u64
    }

    /// Create a new agreement and take the funds into escrow custody (the
    /// actual transfer is the caller's ledger environment's duty; this
    /// records that custody was taken). Validates every input before any
    /// state change: the amount must be strictly positive, the payer must
    /// differ from both payee and arbiter, and the quorum must lie in
    /// `[1, 3]`. On success the agreement gets the next sequential id
    /// (starting at 1), status `Pending`, and empty vote records.
    pub fn deposit(
        &mut self,
        payer: u64,
        payee: u64,
        arbiter: u64,
        amount: u128,
        release_after: u64,
        required_approvals: u32,
    ) -> (r: Result<u64, EscrowError>)
        requires
            old(self).wf(),
            old(self).total() < u64::MAX,
        ensures
            final(self).wf(),
            amount == 0 ==> r == Err::<u64, EscrowError>(EscrowError::InvalidAmount),
            amount > 0 && (payer == payee || payer == arbiter) ==> r == Err::<u64,
                EscrowError,
            >(EscrowError::SameParty),
            amount > 0 && payer != payee && payer != arbiter && !(1 <= required_approvals <= 3)
                ==> r == Err::<u64, EscrowError>(EscrowError::InvalidQuorum),
            r is Err ==> *final(self) == *old(self),
            r is Ok <==> (amount > 0 && payer != payee && payer != arbiter && 1
                <= required_approvals <= 3),
            r is Ok ==> ({
                let a = final(self).agreements@.last();
                &&& r == Ok::<u64, EscrowError>((old(self).total() + 1) as u64)
                &&& final(self).agreements@ == old(self).agreements@.push(a)
                &&& a.id as int == old(self).total() + 1
                &&& a.payer == payer
                &&& a.payee == payee
                &&& a.arbiter == arbiter
                &&& a.amount == amount
                &&& a.release_after == release_after
                &&& a.required_approvals == required_approvals
                &&& a.status == EscrowStatus::Pending
                &&& a.release_approvers@.len() == 0
                &&& a.refund_approvers@.len() == 0
            }),
    {
        if amount == 0 {
            return Err(EscrowError::InvalidAmount);
        }
        if payer == payee || payer == arbiter {
            return Err(EscrowError::SameParty);
        }
        if required_approvals < 1 || required_approvals > 3 {
            return Err(EscrowError::InvalidQuorum);
        }
        let id: u64 = self.agreements.len() as u64 + 1;
        let record = Agreement {
            id,
            payer,
            payee,
            arbiter,
            amount,
            release_after,
            required_approvals,
            status: EscrowStatus::Pending,
            release_approvers: Vec::new(),
            refund_approvers: Vec::new(),
        };
        self.agreements.push(record);
        Ok(id)
    }

    /// Record a release vote by `approver` on agreement `id`, and finalize
    /// the release when this vote completes the quorum and the time-lock
    /// has elapsed (`now >= release_after`). `now` is the caller's current
    /// time, read once for this attempt; the refund track never consults it.
    ///
    /// Returns the resulting status — `Pending` when the vote was recorded
    /// but the quorum is not yet met, `Released` when this vote finalized
    /// the agreement. Every failure leaves the ledger entirely unchanged;
    /// in particular a vote blocked by the time gate (`TimeNotReached`) is
    /// not recorded, so the same party may vote again once the time passes.
    pub fn release(&mut self, id: u64, approver: u64, now: u64) -> (r: Result<
        EscrowStatus,
        EscrowError,
    >)
        requires
            old(self).wf(),
        ensures
            final(self).wf(),
            final(self).total() == old(self).total(),
            // agreements other than `id` are untouched
            forall|j: int|
                0 <= j < old(self).agreements@.len() && j != id as int - 1
                    ==> (#[trigger] final(self).agreements@[j]) == old(self).agreements@[j],
            // a status moves only away from Pending: terminal states are final
            forall|j: int|
                0 <= j < old(self).agreements@.len()
                    ==> ((#[trigger] final(self).agreements@[j]).status == old(
                        self,
                    ).agreements@[j].status || old(self).agreements@[j].status
                        == EscrowStatus::Pending),
            // the failure taxonomy, in the order the checks are made
            !old(self).has_agreement(id) ==> r == Err::<EscrowStatus, EscrowError>(
                EscrowError::NotFound,
            ),
            old(self).has_agreement(id) ==> ({
                let a = old(self).agreement_of(id);
                &&& (a.status != EscrowStatus::Pending ==> r == Err::<EscrowStatus, EscrowError>(
                    EscrowError::NotPending,
                ))
                &&& (a.status == EscrowStatus::Pending && !a.is_party(approver) ==> r == Err::<
                    EscrowStatus,
                    EscrowError,
                >(EscrowError::UnauthorizedApprover))
                &&& (a.status == EscrowStatus::Pending && a.is_party(approver)
                    && a.release_approvers@.contains(approver) ==> r == Err::<
                    EscrowStatus,
                    EscrowError,
                >(EscrowError::DuplicateApproval))
                &&& (a.can_vote_release(approver) && a.release_vote_completes() && now
                    < a.release_after ==> r == Err::<EscrowStatus, EscrowError>(
                    EscrowError::TimeNotReached,
                ))
            }),
            r is Err ==> *final(self) == *old(self),
            // success exactly when the vote is accepted and not blocked by the time gate
            r is Ok <==> (old(self).has_agreement(id) && old(self).agreement_of(
                id,
            ).can_vote_release(approver) && !(old(self).agreement_of(id).release_vote_completes()
                && now < old(self).agreement_of(id).release_after)),
            r is Ok ==> ({
                let a = old(self).agreement_of(id);
                let b = final(self).agreement_of(id);
                &&& b.same_terms(a)
                &&& b.release_approvers@ == a.release_approvers@.push(approver)
                &&& b.refund_approvers@ == a.refund_approvers@
                &&& (a.release_vote_completes() ==> b.status == EscrowStatus::Released && r
                    == Ok::<EscrowStatus, EscrowError>(EscrowStatus::Released))
                &&& (!a.release_vote_completes() ==> b.status == EscrowStatus::Pending && r
                    == Ok::<EscrowStatus, EscrowError>(EscrowStatus::Pending))
            }),
    {
        let len: usize = self.agreements.len();
        if id < 1 || id > len as u64 {
            return Err(EscrowError::NotFound);
        }
        let idx: usize = (id - 1) as usize;
        let prior = &self.agreements[idx];
        proof {
            assert(self.agreements@[idx as int].wf());
        }
        match prior.status {
            EscrowStatus::Pending => {},
            _ => {
                return Err(EscrowError::NotPending);
            },
        }
        if !(approver == prior.payer || approver == prior.payee || approver == prior.arbiter) {
            return Err(EscrowError::UnauthorizedApprover);
        }
        if vec_contains(&prior.release_approvers, approver) {
            return Err(EscrowError::DuplicateApproval);
        }
        let votes_after: u64 = prior.release_approvers.len() as u64 + 1;
        let completes: bool = votes_after >= prior.required_approvals as u64;
        if completes && now < prior.release_after {
            return Err(EscrowError::TimeNotReached);
        }
        let mut new_release: Vec<u64> = prior.release_approvers.clone();
        new_release.push(approver);
        let new_refund: Vec<u64> = prior.refund_approvers.clone();
        let updated = Agreement {
            id: prior.id,
            payer: prior.payer,
            payee: prior.payee,
            arbiter: prior.arbiter,
            amount: prior.amount,
            release_after: prior.release_after,
            required_approvals: prior.required_approvals,
            status: if completes {
                EscrowStatus::Released
            } else {
                EscrowStatus::Pending
            },
            release_approvers: new_release,
            refund_approvers: new_refund,
        };
        let ghost updated_g = updated;
        self.agreements.set(idx, updated);
        proof {
            let a = old(self).agreement_of(id);
            assert(updated_g.release_approvers@ =~= a.release_approvers@.push(approver));
            assert(updated_g.refund_approvers@ =~= a.refund_approvers@);
            assert(updated_g.valid_approvers(updated_g.refund_approvers@));
            assert forall|k1: int, k2: int|
                0 <= k1 < k2 < updated_g.release_approvers@.len() implies updated_g
                .release_approvers@[k1] != updated_g.release_approvers@[k2] by {
                let s = a.release_approvers@;
                if k2 == s.len() {
                    if s[k1] == approver {
                        assert(s.contains(approver));
                    }
                }
            }
            assert(updated_g.wf());
            assert forall|i: int| 0 <= i < self.agreements@.len() implies ((#[trigger] self
                .agreements@[i]).wf() && self.agreements@[i].id as int == i + 1) by {
                if i != idx as int {
                    assert(self.agreements@[i] == old(self).agreements@[i]);
                }
            }
        }
        if completes {
            Ok(EscrowStatus::Released)
        } else {
            Ok(EscrowStatus::Pending)
        }
    }

    /// Record a refund vote by `approver` on agreement `id`, and finalize
    /// the refund when this vote completes the quorum. The refund track has
    /// no time gate: quorum alone decides, at any time, so this operation
    /// never reads a clock.
    ///
    /// Returns the resulting status — `Pending` when the vote was recorded
    /// but the quorum is not yet met, `Refunded` when this vote finalized
    /// the agreement. Every failure leaves the ledger entirely unchanged.
    pub fn refund(&mut self, id: u64, approver: u64) -> (r: Result<EscrowStatus, EscrowError>)
        requires
            old(self).wf(),
        ensures
            final(self).wf(),
            final(self).total() == old(self).total(),
            // agreements other than `id` are untouched
            forall|j: int|
                0 <= j < old(self).agreements@.len() && j != id as int - 1
                    ==> (#[trigger] final(self).agreements@[j]) == old(self).agreements@[j],
            // a status moves only away from Pending: terminal states are final
            forall|j: int|
                0 <= j < old(self).agreements@.len()
                    ==> ((#[trigger] final(self).agreements@[j]).status == old(
                        self,
                    ).agreements@[j].status || old(self).agreements@[j].status
                        == EscrowStatus::Pending),
            // the failure taxonomy, in the order the checks are made
            !old(self).has_agreement(id) ==> r == Err::<EscrowStatus, EscrowError>(
                EscrowError::NotFound,
            ),
            old(self).has_agreement(id) ==> ({
                let a = old(self).agreement_of(id);
                &&& (a.status != EscrowStatus::Pending ==> r == Err::<EscrowStatus, EscrowError>(
                    EscrowError::NotPending,
                ))
                &&& (a.status == EscrowStatus::Pending && !a.is_party(approver) ==> r == Err::<
                    EscrowStatus,
                    EscrowError,
                >(EscrowError::UnauthorizedApprover))
                &&& (a.status == EscrowStatus::Pending && a.is_party(approver)
                    && a.refund_approvers@.contains(approver) ==> r == Err::<
                    EscrowStatus,
                    EscrowError,
                >(EscrowError::DuplicateApproval))
            }),
            r is Err ==> *final(self) == *old(self),
            // success exactly when the vote is accepted: the clock plays no part
            r is Ok <==> (old(self).has_agreement(id) && old(self).agreement_of(
                id,
            ).can_vote_refund(approver)),
            r is Ok ==> ({
                let a = old(self).agreement_of(id);
                let b = final(self).agreement_of(id);
                &&& b.same_terms(a)
                &&& b.refund_approvers@ == a.refund_approvers@.push(approver)
                &&& b.release_approvers@ == a.release_approvers@
                &&& (a.refund_vote_completes() ==> b.status == EscrowStatus::Refunded && r
                    == Ok::<EscrowStatus, EscrowError>(EscrowStatus::Refunded))
                &&& (!a.refund_vote_completes() ==> b.status == EscrowStatus::Pending && r
                    == Ok::<EscrowStatus, EscrowError>(EscrowStatus::Pending))
            }),
    {
        let len: usize = self.agreements.len();
        if id < 1 || id > len as u64 {
            return Err(EscrowError::NotFound);
        }
        let idx: usize = (id - 1) as usize;
        let prior = &self.agreements[idx];
        proof {
            assert(self.agreements@[idx as int].wf());
        }
        match prior.status {
            EscrowStatus::Pending => {},
            _ => {
                return Err(EscrowError::NotPending);
            },
        }
        if !(approver == prior.payer || approver == prior.payee || approver == prior.arbiter) {
            return Err(EscrowError::UnauthorizedApprover);
        }
        if vec_contains(&prior.refund_approvers, approver) {
            return Err(EscrowError::DuplicateApproval);
        }
        let votes_after: u64 = prior.refund_approvers.len() as u64 + 1;
        let completes: bool = votes_after >= prior.required_approvals as u64;
        let mut new_refund: Vec<u64> = prior.refund_approvers.clone();
        new_refund.push(approver);
        let new_release: Vec<u64> = prior.release_approvers.clone();
        let updated = Agreement {
            id: prior.id,
            payer: prior.payer,
            payee: prior.payee,
            arbiter: prior.arbiter,
            amount: prior.amount,
            release_after: prior.release_after,
            required_approvals: prior.required_approvals,
            status: if completes {
                EscrowStatus::Refunded
            } else {
                EscrowStatus::Pending
            },
            release_approvers: new_release,
            refund_approvers: new_refund,
        };
        let ghost updated_g = updated;
        self.agreements.set(idx, updated);
        proof {
            let a = old(self).agreement_of(id);
            assert(updated_g.refund_approvers@ =~= a.refund_approvers@.push(approver));
            assert(updated_g.release_approvers@ =~= a.release_approvers@);
            assert(updated_g.valid_approvers(updated_g.release_approvers@));
            assert forall|k1: int, k2: int|
                0 <= k1 < k2 < updated_g.refund_approvers@.len() implies updated_g
                .refund_approvers@[k1] != updated_g.refund_approvers@[k2] by {
                let s = a.refund_approvers@;
                if k2 == s.len() {
                    if s[k1] == approver {
                        assert(s.contains(approver));
                    }
                }
            }
            assert(updated_g.wf());
            assert forall|i: int| 0 <= i < self.agreements@.len() implies ((#[trigger] self
                .agreements@[i]).wf() && self.agreements@[i].id as int == i + 1) by {
                if i != idx as int {
                    assert(self.agreements@[i] == old(self).agreements@[i]);
                }
            }
        }
        if completes {
            Ok(EscrowStatus::Refunded)
        } else {
            Ok(EscrowStatus::Pending)
        }
    }

    /// Read the full current record of agreement `id`, including its status
    /// and both vote records; fails with `NotFound` for an id never created.
    pub fn get_escrow(&self, id: u64) -> (r: Result<&Agreement, EscrowError>)
        ensures
            r is Ok <==> self.has_agreement(id),
            r matches Ok(a) ==> *a == self.agreement_of(id),
            r is Err ==> r == Err::<&Agreement, EscrowError>(EscrowError::NotFound),
    {
        if id >= 1 && id <= self.agreements.len() as u64 {
            let idx: usize = (id - 1) as usize;
            Ok(&self.agreements[idx])
        } else {
            Err(EscrowError::NotFound)
        }
    }
}

/// Law: identifiers are assigned sequentially starting at 1 and are never
/// reused or reassigned — the agreement stored at position `i` carries id
/// `i + 1`, so every id in `[1, total]` names exactly one agreement and
/// `total` counts exactly the successful deposits.
pub proof fn lemma_ids_sequential(ledger: EscrowLedger, i: int)
    requires
        ledger.wf(),
        0 <= i < ledger.agreements@.len(),
    ensures
        ledger.agreements@[i].id as int == i + 1,
        ledger.has_agreement(ledger.agreements@[i].id),
        ledger.agreement_of(ledger.agreements@[i].id) == ledger.agreements@[i],
{
}

} // verus!
