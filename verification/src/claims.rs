//! The claim aggregate: a claim is submitted, then verified or found invalid,
//! then approved, and may be rejected from any recorded state. State is only
//! ever derived by folding claim events in append order.

use vstd::prelude::*;
use vstd::string::StringExecFns;
use crate::dup_opt_string;

verus! {

/// Numeric identity of a claim.
pub type ClaimId = i64;

/// An immutable fact about a claim. Timestamps are milliseconds since the
/// epoch; every acting party is recorded and never removed by later events.
#[derive(Debug, Clone, PartialEq)]
pub enum ClaimEvent {
    ClaimSubmitted {
        claim_id: ClaimId,
        claimant_id: String,
        claim_data: Option<String>,
        timestamp: i64,
    },
    ClaimVerified { claim_id: ClaimId, verifier_id: String, verified_at: i64 },
    ClaimVerificationFailed { claim_id: ClaimId, verifier_id: String, reason: String, failed_at: i64 },
    ClaimApproved { claim_id: ClaimId, approver_id: String, approved_at: i64 },
    ClaimRejected { claim_id: ClaimId, rejector_id: String, reason: String, rejected_at: i64 },
}

/// Typed, non-fatal command-handling failures for claims.
#[derive(Debug, PartialEq)]
pub enum ClaimError {
    /// A command addressed a claim that has no recorded state.
    ClaimNotFound(String),
    /// The command's claim id does not match the claim it was routed to.
    IdentityMismatch { error_message: String, error_code: u32 },
    /// A submission hit a claim that already has state.
    AlreadyExists { error_message: String, error_code: u32 },
    /// The claim is not in the status the requested transition starts from.
    InvalidTransition { error_message: String, error_code: u32 },
}

/// The latest recorded status of a claim.
#[derive(Debug, Clone, Copy, PartialEq, Eq, Structural)]
pub enum ClaimStatus {
    /// No submission has been recorded for this claim yet.
    Unsubmitted,
    Submitted,
    Approved,
    Rejected,
    Verified,
    Invalid,
    ValidationFailed,
}

/// Claim state, reconstructed solely by folding events in append order.
#[derive(Debug, Clone, PartialEq)]
pub struct Claim {
    pub claim_id: ClaimId,
    pub entity: String,
    pub entity_id: String,
    pub status: ClaimStatus,
    pub claim_data: Option<String>,
    pub attestation_id: Option<String>,
    pub attestation_name: Option<String>,
    pub verifier_id: Option<String>,
    pub timestamp: i64,
}

/// Submission of a new claim; the entity id identifies the claimant.
#[derive(Debug, Clone, PartialEq)]
pub struct SubmitClaim {
    pub claim_id: ClaimId,
    pub entity: String,
    pub entity_id: String,
    pub claim_data: Option<String>,
}

/// Successful verification of a submitted claim; the entity id identifies the
/// verifier.
#[derive(Debug, Clone, PartialEq)]
pub struct VerifyClaim {
    pub claim_id: ClaimId,
    pub entity: String,
    pub entity_id: String,
}

/// Approval of a verified claim.
#[derive(Debug, Clone, PartialEq)]
pub struct ApproveClaim {
    pub claim_id: ClaimId,
    pub approver_id: String,
}

/// Rejection of a claim in any recorded state.
#[derive(Debug, Clone, PartialEq)]
pub struct RejectClaim {
    pub claim_id: ClaimId,
    pub rejector_id: String,
    pub reason: String,
}

/// The state reached by folding one event into `state`. Total: every event
/// variant has a defined effect, if only a status transition.
pub open spec fn mutate_spec(state: Claim, event: ClaimEvent) -> Claim {
    match event {
        ClaimEvent::ClaimSubmitted { claim_id, claimant_id, claim_data, .. } => Claim {
            status: ClaimStatus::Submitted,
            claim_id,
            entity_id: claimant_id,
            claim_data,
            ..state
        },
        ClaimEvent::ClaimVerified { .. } => Claim { status: ClaimStatus::Verified, ..state },
        ClaimEvent::ClaimVerificationFailed { .. } => Claim {
            status: ClaimStatus::Invalid,
            ..state
        },
        ClaimEvent::ClaimApproved { .. } => Claim { status: ClaimStatus::Approved, ..state },
        ClaimEvent::ClaimRejected { .. } => Claim { status: ClaimStatus::Rejected, ..state },
    }
}

/// The state reached by folding `events` into `state` in append order.
pub open spec fn fold_claim_spec(state: Claim, events: Seq<ClaimEvent>) -> Claim
    decreases events.len(),
{
    if events.len() == 0 {
        state
    } else {
        mutate_spec(fold_claim_spec(state, events.drop_last()), events.last())
    }
}

impl Claim {
    /// The empty state of a claim with the given identity: nothing recorded
    /// yet.
    pub fn new(claim_id: ClaimId) -> (r: Self)
        ensures
            r.claim_id == claim_id,
            r.status is Unsubmitted,
            r.entity@ == Seq::<char>::empty(),
            r.entity_id@ == Seq::<char>::empty(),
            r.claim_data is None,
            r.attestation_id is None,
            r.attestation_name is None,
            r.verifier_id is None,
            r.timestamp == 0,
    {
        Claim {
            claim_id,
            entity: String::new(),
            entity_id: String::new(),
            status: ClaimStatus::Unsubmitted,
            claim_data: None,
            attestation_id: None,
            attestation_name: None,
            verifier_id: None,
            timestamp: 0,
        }
    }

    /// Folds one event into the state, in place. Only the latest status (and,
    /// on submission, the claimant and payload) is accumulated; the event log
    /// keeps full history.
    pub fn mutate(&mut self, event: ClaimEvent)
        ensures
            *final(self) == mutate_spec(*old(self), event),
    {
        match event {
            ClaimEvent::ClaimSubmitted { claim_id, claimant_id, claim_data, .. } => {
                self.status = ClaimStatus::Submitted;
                self.claim_id = claim_id;
                self.entity_id = claimant_id;
                self.claim_data = claim_data;
            },
            ClaimEvent::ClaimVerified { .. } => {
                self.status = ClaimStatus::Verified;
            },
            ClaimEvent::ClaimVerificationFailed { .. } => {
                self.status = ClaimStatus::Invalid;
            },
            ClaimEvent::ClaimApproved { .. } => {
                self.status = ClaimStatus::Approved;
            },
            ClaimEvent::ClaimRejected { .. } => {
                self.status = ClaimStatus::Rejected;
            },
        }
    }

    /// Handles a submission: accepted exactly on a claim with no recorded
    /// state and a matching id, and then records the claimant and payload at
    /// the given time.
    pub fn handle_submit(&self, command: SubmitClaim, now: i64) -> (r: Result<
        Vec<ClaimEvent>,
        ClaimError,
    >)
        ensures
            r is Ok <==> (self.status is Unsubmitted && command.claim_id == self.claim_id),
            r matches Ok(events) ==> events@ == seq![
                ClaimEvent::ClaimSubmitted {
                    claim_id: command.claim_id,
                    claimant_id: command.entity_id,
                    claim_data: command.claim_data,
                    timestamp: now,
                },
            ],
            r matches Err(e) ==> if command.claim_id != self.claim_id {
                e matches ClaimError::IdentityMismatch { error_message, error_code } && error_code
                    == 400 && error_message@
                    == "the claim id in the command does not match the claim"@
            } else {
                e matches ClaimError::AlreadyExists { error_message, error_code } && error_code
                    == 400 && error_message@ == "a claim with this id already exists"@
            },
    {
        if command.claim_id != self.claim_id {
            return Err(
                ClaimError::IdentityMismatch {
                    error_message: String::from_str(
                        "the claim id in the command does not match the claim",
                    ),
                    error_code: 400,
                },
            );
        }
        match self.status {
            ClaimStatus::Unsubmitted => Ok(
                vec![
                    ClaimEvent::ClaimSubmitted {
                        claim_id: command.claim_id,
                        claimant_id: command.entity_id,
                        claim_data: command.claim_data,
                        timestamp: now,
                    },
                ],
            ),
            _ => Err(
                ClaimError::AlreadyExists {
                    error_message: String::from_str("a claim with this id already exists"),
                    error_code: 400,
                },
            ),
        }
    }

    /// Handles a successful verification: accepted exactly on a submitted
    /// claim with a matching id; records the verifier and the time.
    pub fn handle_verify(&self, command: VerifyClaim, now: i64) -> (r: Result<
        Vec<ClaimEvent>,
        ClaimError,
    >)
        ensures
            r is Ok <==> (self.status is Submitted && command.claim_id == self.claim_id),
            r matches Ok(events) ==> events@ == seq![
                ClaimEvent::ClaimVerified {
                    claim_id: command.claim_id,
                    verifier_id: command.entity_id,
                    verified_at: now,
                },
            ],
            r matches Err(e) ==> if command.claim_id != self.claim_id {
                e matches ClaimError::IdentityMismatch { error_message, error_code } && error_code
                    == 400 && error_message@
                    == "the claim id in the command does not match the claim"@
            } else if self.status is Unsubmitted {
                e matches ClaimError::ClaimNotFound(message) && message@ == "Claim not found"@
            } else {
                e matches ClaimError::InvalidTransition { error_message, error_code } && error_code
                    == 400 && error_message@ == "only a submitted claim can be verified"@
            },
    {
        if command.claim_id != self.claim_id {
            return Err(
                ClaimError::IdentityMismatch {
                    error_message: String::from_str(
                        "the claim id in the command does not match the claim",
                    ),
                    error_code: 400,
                },
            );
        }
        match self.status {
            ClaimStatus::Submitted => Ok(
                vec![
                    ClaimEvent::ClaimVerified {
                        claim_id: command.claim_id,
                        verifier_id: command.entity_id,
                        verified_at: now,
                    },
                ],
            ),
            ClaimStatus::Unsubmitted => Err(
                ClaimError::ClaimNotFound(String::from_str("Claim not found")),
            ),
            _ => Err(
                ClaimError::InvalidTransition {
                    error_message: String::from_str("only a submitted claim can be verified"),
                    error_code: 400,
                },
            ),
        }
    }

    /// Handles a failed verification: accepted exactly on a submitted claim;
    /// records the verifier, the reason and the time.
    pub fn handle_fail_verification(&self, verifier_id: String, reason: String, now: i64) -> (r:
        Result<Vec<ClaimEvent>, ClaimError>)
        ensures
            r is Ok <==> self.status is Submitted,
            r matches Ok(events) ==> events@ == seq![
                ClaimEvent::ClaimVerificationFailed {
                    claim_id: self.claim_id,
                    verifier_id,
                    reason,
                    failed_at: now,
                },
            ],
            r matches Err(e) ==> if self.status is Unsubmitted {
                e matches ClaimError::ClaimNotFound(message) && message@ == "Claim not found"@
            } else {
                e matches ClaimError::InvalidTransition { error_message, error_code } && error_code
                    == 400 && error_message@ == "only a submitted claim can fail verification"@
            },
    {
        match self.status {
            ClaimStatus::Submitted => Ok(
                vec![
                    ClaimEvent::ClaimVerificationFailed {
                        claim_id: self.claim_id,
                        verifier_id,
                        reason,
                        failed_at: now,
                    },
                ],
            ),
            ClaimStatus::Unsubmitted => Err(
                ClaimError::ClaimNotFound(String::from_str("Claim not found")),
            ),
            _ => Err(
                ClaimError::InvalidTransition {
                    error_message: String::from_str(
                        "only a submitted claim can fail verification",
                    ),
                    error_code: 400,
                },
            ),
        }
    }

    /// Handles an approval: accepted exactly on a verified claim with a
    /// matching id. No other status — in particular not an invalid one —
    /// allows approval.
    pub fn handle_approve(&self, command: ApproveClaim, now: i64) -> (r: Result<
        Vec<ClaimEvent>,
        ClaimError,
    >)
        ensures
            r is Ok <==> (self.status is Verified && command.claim_id == self.claim_id),
            r matches Ok(events) ==> events@ == seq![
                ClaimEvent::ClaimApproved {
                    claim_id: command.claim_id,
                    approver_id: command.approver_id,
                    approved_at: now,
                },
            ],
            r matches Err(e) ==> if command.claim_id != self.claim_id {
                e matches ClaimError::IdentityMismatch { error_message, error_code } && error_code
                    == 400 && error_message@
                    == "the claim id in the command does not match the claim"@
            } else if self.status is Unsubmitted {
                e matches ClaimError::ClaimNotFound(message) && message@ == "Claim not found"@
            } else {
                e matches ClaimError::InvalidTransition { error_message, error_code } && error_code
                    == 400 && error_message@ == "only a verified claim can be approved"@
            },
    {
        if command.claim_id != self.claim_id {
            return Err(
                ClaimError::IdentityMismatch {
                    error_message: String::from_str(
                        "the claim id in the command does not match the claim",
                    ),
                    error_code: 400,
                },
            );
        }
        match self.status {
            ClaimStatus::Verified => Ok(
                vec![
                    ClaimEvent::ClaimApproved {
                        claim_id: command.claim_id,
                        approver_id: command.approver_id,
                        approved_at: now,
                    },
                ],
            ),
            ClaimStatus::Unsubmitted => Err(
                ClaimError::ClaimNotFound(String::from_str("Claim not found")),
            ),
            _ => Err(
                ClaimError::InvalidTransition {
                    error_message: String::from_str("only a verified claim can be approved"),
                    error_code: 400,
                },
            ),
        }
    }

    /// Handles a rejection: accepted on any recorded state with a matching
    /// id; records the rejector, the reason and the time.
    pub fn handle_reject(&self, command: RejectClaim, now: i64) -> (r: Result<
        Vec<ClaimEvent>,
        ClaimError,
    >)
        ensures
            r is Ok <==> (!(self.status is Unsubmitted) && command.claim_id == self.claim_id),
            r matches Ok(events) ==> events@ == seq![
                ClaimEvent::ClaimRejected {
                    claim_id: command.claim_id,
                    rejector_id: command.rejector_id,
                    reason: command.reason,
                    rejected_at: now,
                },
            ],
            r matches Err(e) ==> if command.claim_id != self.claim_id {
                e matches ClaimError::IdentityMismatch { error_message, error_code } && error_code
                    == 400 && error_message@
                    == "the claim id in the command does not match the claim"@
            } else {
                e matches ClaimError::ClaimNotFound(message) && message@ == "Claim not found"@
            },
    {
        if command.claim_id != self.claim_id {
            return Err(
                ClaimError::IdentityMismatch {
                    error_message: String::from_str(
                        "the claim id in the command does not match the claim",
                    ),
                    error_code: 400,
                },
            );
        }
        match self.status {
            ClaimStatus::Unsubmitted => Err(
                ClaimError::ClaimNotFound(String::from_str("Claim not found")),
            ),
            _ => Ok(
                vec![
                    ClaimEvent::ClaimRejected {
                        claim_id: command.claim_id,
                        rejector_id: command.rejector_id,
                        reason: command.reason,
                        rejected_at: now,
                    },
                ],
            ),
        }
    }

    /// Rebuilds claim state by folding `events` in append order into `self`.
    /// The result is a function of the starting state and the event sequence
    /// alone.
    pub fn replay(self, events: Vec<ClaimEvent>) -> (r: Self)
        ensures
            r == fold_claim_spec(self, events@),
    {
        let mut state = self;
        let mut i: usize = 0;
        while i < events.len()
            invariant
                0 <= i <= events@.len(),
                state == fold_claim_spec(self, events@.subrange(0, i as int)),
            decreases events@.len() - i,
        {
            let event = events[i].duplicate();
            state.mutate(event);
            proof {
                let pre = events@.subrange(0, i as int);
                let post = events@.subrange(0, i as int + 1);
                assert(post.drop_last() =~= pre);
                assert(post.last() == events@[i as int]);
            }
            i = i + 1;
        }
        proof {
            assert(events@.subrange(0, events@.len() as int) =~= events@);
        }
        state
    }
}

impl ClaimEvent {
    /// An exact copy of the event; events are immutable values.
    pub fn duplicate(&self) -> (r: Self)
        ensures
            r == *self,
    {
        match self {
            ClaimEvent::ClaimSubmitted { claim_id, claimant_id, claim_data, timestamp } => ClaimEvent::ClaimSubmitted {
                claim_id: *claim_id,
                claimant_id: claimant_id.clone(),
                claim_data: dup_opt_string(claim_data),
                timestamp: *timestamp,
            },
            ClaimEvent::ClaimVerified { claim_id, verifier_id, verified_at } => ClaimEvent::ClaimVerified {
                claim_id: *claim_id,
                verifier_id: verifier_id.clone(),
                verified_at: *verified_at,
            },
            ClaimEvent::ClaimVerificationFailed {
                claim_id,
                verifier_id,
                reason,
                failed_at,
            } => ClaimEvent::ClaimVerificationFailed {
                claim_id: *claim_id,
                verifier_id: verifier_id.clone(),
                reason: reason.clone(),
                failed_at: *failed_at,
            },
            ClaimEvent::ClaimApproved { claim_id, approver_id, approved_at } => ClaimEvent::ClaimApproved {
                claim_id: *claim_id,
                approver_id: approver_id.clone(),
                approved_at: *approved_at,
            },
            ClaimEvent::ClaimRejected { claim_id, rejector_id, reason, rejected_at } => ClaimEvent::ClaimRejected {
                claim_id: *claim_id,
                rejector_id: rejector_id.clone(),
                reason: reason.clone(),
                rejected_at: *rejected_at,
            },
        }
    }
}

/// Folding the same ordered claim-event sequence from the same starting state
/// always yields the same final state: claim reconstruction is deterministic.
pub proof fn lemma_claim_replay_deterministic(
    first_state: Claim,
    second_state: Claim,
    first_events: Seq<ClaimEvent>,
    second_events: Seq<ClaimEvent>,
)
    requires
        first_state == second_state,
        first_events == second_events,
    ensures
        fold_claim_spec(first_state, first_events) == fold_claim_spec(second_state, second_events),
{
}

} // verus!
