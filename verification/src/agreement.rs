//! The escrow agreement record: its fields, its well-formedness invariant,
//! and the spec-level vocabulary (parties, vote eligibility, quorum) that the
//! ledger operations' contracts are stated in.

use vstd::prelude::*;

verus! {

/// Lifecycle state of an agreement. `Pending` is the only non-terminal
/// state; `Released` and `Refunded` are terminal and mutually exclusive.
#[derive(Clone, Copy, Debug, PartialEq, Eq)]
pub enum EscrowStatus {
    Pending,
    Released,
    Refunded,
}

/// Every way an operation can refuse. Each failure aborts the whole
/// operation: no vote is recorded, no counter moves, no status changes.
#[derive(Clone, Copy, Debug, PartialEq, Eq)]
pub enum EscrowError {
    /// The amount was not strictly positive.
    InvalidAmount,
    /// Payer equals payee, or payer equals arbiter, at creation.
    SameParty,
    /// `required_approvals` lies outside `[1, 3]`.
    InvalidQuorum,
    /// The referenced agreement id was never created.
    NotFound,
    /// The agreement is already `Released` or `Refunded`.
    NotPending,
    /// The caller is not payer, payee, or arbiter of the agreement.
    UnauthorizedApprover,
    /// The caller already voted on this track for this agreement.
    DuplicateApproval,
    /// Release quorum is met but `release_after` has not yet elapsed.
    TimeNotReached,
}

/// One locked-funds arrangement between payer, payee, and arbiter.
/// Identities are opaque comparable tokens supplied by the caller's
/// authorization layer; the ledger never interprets them.
#[derive(Debug)]
pub struct Agreement {
    /// Sequential identifier, assigned at creation, never reused.
    pub id: u64,
    /// Identity that funded the agreement.
    pub payer: u64,
    /// Identity eligible to receive the funds on release.
    pub payee: u64,
    /// Neutral identity that may vote on either track to break a deadlock.
    pub arbiter: u64,
    /// Quantity of value held; strictly positive.
    pub amount: u128,
    /// Timestamp before which release cannot finalize.
    pub release_after: u64,
    /// Quorum size, in `[1, 3]`; shared by both tracks.
    pub required_approvals: u32,
    /// Current lifecycle state.
    pub status: EscrowStatus,
    /// Distinct parties that have voted to release.
    pub release_approvers: Vec<u64>,
    /// Distinct parties that have voted to refund; independent of the
    /// release votes.
    pub refund_approvers: Vec<u64>,
}

impl Agreement {
    /// `who` is one of the three named parties of this agreement.
    pub open spec fn is_party(self, who: u64) -> bool {
        who == self.payer || who == self.payee || who == self.arbiter
    }

    /// A vote record is valid: every entry is a named party and no party
    /// appears twice.
    pub open spec fn valid_approvers(self, s: Seq<u64>) -> bool {
        &&& (forall|i: int| 0 <= i < s.len() ==> self.is_party(#[trigger] s[i]))
        &&& (forall|i: int, j: int| 0 <= i < j < s.len() ==> s[i] != s[j])
    }

    /// The immutable terms of an agreement: everything except the status and
    /// the two vote records.
    pub open spec fn same_terms(self, other: Agreement) -> bool {
        &&& self.id == other.id
        &&& self.payer == other.payer
        &&& self.payee == other.payee
        &&& self.arbiter == other.arbiter
        &&& self.amount == other.amount
        &&& self.release_after == other.release_after
        &&& self.required_approvals == other.required_approvals
    }

    /// Well-formedness, established at creation and preserved by every
    /// operation:
    /// - the creation-time validation holds (positive amount, distinct
    ///   payer/payee and payer/arbiter, quorum in `[1, 3]`);
    /// - both vote records are duplicate-free sets of named parties;
    /// - while `Pending`, each track is strictly below quorum (the terminal
    ///   transition fires on the very vote that completes a quorum);
    /// - a terminal state certifies an exact quorum on its own track.
    pub open spec fn wf(self) -> bool {
        &&& self.amount > 0
        &&& self.payer != self.payee
        &&& self.payer != self.arbiter
        &&& 1 <= self.required_approvals <= 3
        &&& self.valid_approvers(self.release_approvers@)
        &&& self.valid_approvers(self.refund_approvers@)
        &&& (self.status == EscrowStatus::Pending ==> {
            &&& self.release_approvers@.len() < self.required_approvals as int
            &&& self.refund_approvers@.len() < self.required_approvals as int
        })
        &&& (self.status == EscrowStatus::Released
            ==> self.release_approvers@.len() == self.required_approvals as int)
        &&& (self.status == EscrowStatus::Refunded
            ==> self.refund_approvers@.len() == self.required_approvals as int)
    }

    /// A release vote by `who` is accepted: the agreement is still pending,
    /// `who` is a named party, and `who` has not yet voted on this track.
    pub open spec fn can_vote_release(self, who: u64) -> bool {
        &&& self.status == EscrowStatus::Pending
        &&& self.is_party(who)
        &&& !self.release_approvers@.contains(who)
    }

    /// A refund vote by `who` is accepted. Only the refund track's own
    /// record is consulted: a prior release vote is no obstacle.
    pub open spec fn can_vote_refund(self, who: u64) -> bool {
        &&& self.status == EscrowStatus::Pending
        &&& self.is_party(who)
        &&& !self.refund_approvers@.contains(who)
    }

    /// One more release vote would meet or exceed the quorum.
    pub open spec fn release_vote_completes(self) -> bool {
        self.release_approvers@.len() + 1 >= self.required_approvals as int
    }

    /// One more refund vote would meet or exceed the quorum.
    pub open spec fn refund_vote_completes(self) -> bool {
        self.refund_approvers@.len() + 1 >= self.required_approvals as int
    }
}

/// Law: while an agreement is pending, both tracks are strictly below
/// quorum. Hence the terminal transition can only occur on the vote that
/// brings a track from `required_approvals - 1` votes to `required_approvals`
/// — never earlier.
pub proof fn lemma_pending_below_quorum(a: Agreement)
    requires
        a.wf(),
        a.status == EscrowStatus::Pending,
    ensures
        a.release_approvers@.len() < a.required_approvals as int,
        a.refund_approvers@.len() < a.required_approvals as int,
{
}

/// Law: a terminal agreement certifies an exact quorum on the track that
/// decided it — `Released` holds exactly `required_approvals` release votes,
/// `Refunded` exactly `required_approvals` refund votes.
pub proof fn lemma_terminal_quorum_exact(a: Agreement)
    requires
        a.wf(),
        a.status != EscrowStatus::Pending,
    ensures
        a.status == EscrowStatus::Released
            ==> a.release_approvers@.len() == a.required_approvals as int,
        a.status == EscrowStatus::Refunded
            ==> a.refund_approvers@.len() == a.required_approvals as int,
{
}

/// Law (track independence): whether a refund vote by `who` is accepted
/// depends only on the status, the named parties, and the refund record —
/// never on the release record. Two agreements that differ at most in their
/// release votes judge every refund vote identically.
pub proof fn lemma_refund_vote_ignores_release_track(a: Agreement, b: Agreement, who: u64)
    requires
        a.status == b.status,
        a.payer == b.payer,
        a.payee == b.payee,
        a.arbiter == b.arbiter,
        a.required_approvals == b.required_approvals,
        a.refund_approvers@ == b.refund_approvers@,
    ensures
        a.can_vote_refund(who) == b.can_vote_refund(who),
        a.refund_vote_completes() == b.refund_vote_completes(),
{
}

/// Law (track independence, other direction): whether a release vote by
/// `who` is accepted, and whether it would complete the quorum, ignores the
/// refund record entirely.
pub proof fn lemma_release_vote_ignores_refund_track(a: Agreement, b: Agreement, who: u64)
    requires
        a.status == b.status,
        a.payer == b.payer,
        a.payee == b.payee,
        a.arbiter == b.arbiter,
        a.required_approvals == b.required_approvals,
        a.release_approvers@ == b.release_approvers@,
    ensures
        a.can_vote_release(who) == b.can_vote_release(who),
        a.release_vote_completes() == b.release_vote_completes(),
{
}

} // verus!
