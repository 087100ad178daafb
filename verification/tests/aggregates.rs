use eventcore::schema_def::{SchemaDef, SchemaDefCommand, SchemaDefError, SchemaDefEvent, Status};
use eventcore::claims::{
    ApproveClaim, Claim, ClaimError, ClaimEvent, ClaimStatus, RejectClaim, SubmitClaim,
    VerifyClaim,
};

fn run(state: SchemaDef, command: SchemaDefCommand) -> SchemaDef {
    let events = state.handle(command).unwrap();
    state.replay(events)
}

#[test]
fn test_create_validate_activate_reaches_active() {
    let state = SchemaDef::default();
    let state = run(
        state,
        SchemaDefCommand::CreateDef { id: String::from("A"), schema: String::from("S") },
    );
    assert_eq!(state.status, Status::Inactive);
    let state = run(state, SchemaDefCommand::ValidateDef { id: String::from("A") });
    assert_eq!(state.status, Status::Valid);
    let state = run(state, SchemaDefCommand::ActivateDef { id: String::from("A") });
    assert_eq!(state.status, Status::Active);

    let second_create = state.handle(SchemaDefCommand::CreateDef {
        id: String::from("A"),
        schema: String::from("S"),
    });
    match second_create {
        Err(SchemaDefError::ExistsError { error_message, error_code }) => {
            assert_eq!(error_code, 400);
            assert_eq!(error_message, "Aggregate with id A already exists");
        }
        other => panic!("expected ExistsError, got {:?}", other),
    }
}

#[test]
fn test_compound_create_and_validate_matches_sequential() {
    let compound = run(
        SchemaDef::default(),
        SchemaDefCommand::CreateAndValidateDef { id: String::from("B"), schema: String::from("S2") },
    );

    let sequential = run(
        SchemaDef::default(),
        SchemaDefCommand::CreateDef { id: String::from("B"), schema: String::from("S2") },
    );
    let sequential = run(sequential, SchemaDefCommand::ValidateDef { id: String::from("B") });

    assert_eq!(compound.status, Status::Valid);
    assert_eq!(compound, sequential);
}

#[test]
fn test_replay_is_deterministic() {
    let events = vec![
        SchemaDefEvent::DefCreated { id: String::from("D"), schema: String::from("S") },
        SchemaDefEvent::DefValidated { id: String::from("D") },
        SchemaDefEvent::DefActivated { id: String::from("D") },
        SchemaDefEvent::DefDeactivated { id: String::from("D") },
    ];
    let first = SchemaDef::default().replay(events.clone());
    let second = SchemaDef::default().replay(events);
    assert_eq!(first, second);
    assert_eq!(first.status, Status::Inactive);
}

#[test]
fn test_validate_rejects_mismatched_id() {
    let state = run(
        SchemaDef::default(),
        SchemaDefCommand::CreateDef { id: String::from("A"), schema: String::from("S") },
    );
    let result = state.handle(SchemaDefCommand::ValidateDef { id: String::from("Z") });
    match result {
        Err(SchemaDefError::ValidationError { error_message, error_code }) => {
            assert_eq!(error_code, 400);
            assert_eq!(
                error_message,
                "The id:Z in the command does not match with id: A in the aggregate"
            );
        }
        other => panic!("expected ValidationError, got {:?}", other),
    }
}

#[test]
fn test_activate_requires_valid_status() {
    let state = run(
        SchemaDef::default(),
        SchemaDefCommand::CreateDef { id: String::from("A"), schema: String::from("S") },
    );
    let result = state.handle(SchemaDefCommand::ActivateDef { id: String::from("A") });
    assert!(matches!(
        result,
        Err(SchemaDefError::ActivationError { error_code: 400, .. })
    ));
}

#[test]
fn test_deactivate_requires_active_status() {
    let state = run(
        SchemaDef::default(),
        SchemaDefCommand::CreateDef { id: String::from("A"), schema: String::from("S") },
    );
    let result = state.handle(SchemaDefCommand::DeactivateDef { id: String::from("A") });
    assert!(matches!(
        result,
        Err(SchemaDefError::DeactivationError { error_code: 400, .. })
    ));
}

#[test]
fn test_error_message_and_code_are_relayed() {
    let state = SchemaDef::new(String::from("A"), String::from("S"));
    let error = state
        .handle(SchemaDefCommand::CreateDef { id: String::from("A"), schema: String::from("S") })
        .unwrap_err();
    let (message, code) = error.message_and_code();
    assert_eq!(message, "Aggregate with id A already exists");
    assert_eq!(code, 400);
}

#[test]
fn test_event_type_and_version_tags() {
    let event = SchemaDefEvent::DefCreated { id: String::from("A"), schema: String::from("S") };
    assert_eq!(event.event_type(), "DefCreated");
    assert_eq!(event.event_version(), "1.0");
    let event = SchemaDefEvent::DefCreatedAndValidated {
        id: String::from("A"),
        schema: String::from("S"),
    };
    assert_eq!(event.event_type(), "DefCreatedAndValidated");
    assert_eq!(SchemaDef::aggregate_type(), "SchemaDef");
}

#[test]
fn test_claim_verification_failure_blocks_approval() {
    let claim = Claim::new(1);
    let events = claim
        .handle_submit(
            SubmitClaim {
                claim_id: 1,
                entity: String::from("policy"),
                entity_id: String::from("C1"),
                claim_data: None,
            },
            10,
        )
        .unwrap();
    let claim = claim.replay(events);
    assert_eq!(claim.status, ClaimStatus::Submitted);
    assert_eq!(claim.entity_id, "C1");

    let mut claim = claim;
    claim.mutate(ClaimEvent::ClaimVerificationFailed {
        claim_id: 1,
        verifier_id: String::from("V1"),
        reason: String::from("bad doc"),
        failed_at: 20,
    });
    assert_eq!(claim.status, ClaimStatus::Invalid);

    let approval = claim.handle_approve(
        ApproveClaim { claim_id: 1, approver_id: String::from("boss") },
        30,
    );
    assert!(matches!(
        approval,
        Err(ClaimError::InvalidTransition { error_code: 400, .. })
    ));
}

#[test]
fn test_claim_happy_path_to_approval() {
    let claim = Claim::new(7);
    let events = claim
        .handle_submit(
            SubmitClaim {
                claim_id: 7,
                entity: String::from("policy"),
                entity_id: String::from("C9"),
                claim_data: Some(String::from("receipt")),
            },
            1,
        )
        .unwrap();
    let claim = claim.replay(events);
    let events = claim
        .handle_verify(
            VerifyClaim {
                claim_id: 7,
                entity: String::from("policy"),
                entity_id: String::from("V2"),
            },
            2,
        )
        .unwrap();
    let claim = claim.replay(events);
    assert_eq!(claim.status, ClaimStatus::Verified);
    let events = claim
        .handle_approve(ApproveClaim { claim_id: 7, approver_id: String::from("boss") }, 3)
        .unwrap();
    let claim = claim.replay(events);
    assert_eq!(claim.status, ClaimStatus::Approved);
    assert_eq!(claim.claim_data, Some(String::from("receipt")));
}

#[test]
fn test_claim_submit_twice_already_exists() {
    let claim = Claim::new(2);
    let submit = SubmitClaim {
        claim_id: 2,
        entity: String::from("policy"),
        entity_id: String::from("C1"),
        claim_data: None,
    };
    let events = claim.handle_submit(submit.clone(), 5).unwrap();
    let claim = claim.replay(events);
    assert!(matches!(
        claim.handle_submit(submit, 6),
        Err(ClaimError::AlreadyExists { error_code: 400, .. })
    ));
}

#[test]
fn test_claim_commands_reject_mismatched_id() {
    let claim = Claim::new(3);
    assert!(matches!(
        claim.handle_submit(
            SubmitClaim {
                claim_id: 4,
                entity: String::from("policy"),
                entity_id: String::from("C1"),
                claim_data: None,
            },
            1,
        ),
        Err(ClaimError::IdentityMismatch { error_code: 400, .. })
    ));
}

#[test]
fn test_claim_verify_unsubmitted_not_found() {
    let claim = Claim::new(5);
    assert!(matches!(
        claim.handle_verify(
            VerifyClaim {
                claim_id: 5,
                entity: String::from("policy"),
                entity_id: String::from("V1"),
            },
            1,
        ),
        Err(ClaimError::ClaimNotFound(_))
    ));
}

#[test]
fn test_claim_reject_from_any_recorded_state() {
    let claim = Claim::new(6);
    // Rejecting before submission: nothing recorded.
    assert!(matches!(
        claim.handle_reject(
            RejectClaim {
                claim_id: 6,
                rejector_id: String::from("R"),
                reason: String::from("fraud"),
            },
            1,
        ),
        Err(ClaimError::ClaimNotFound(_))
    ));
    let events = claim
        .handle_submit(
            SubmitClaim {
                claim_id: 6,
                entity: String::from("policy"),
                entity_id: String::from("C1"),
                claim_data: None,
            },
            1,
        )
        .unwrap();
    let claim = claim.replay(events);
    let events = claim
        .handle_reject(
            RejectClaim {
                claim_id: 6,
                rejector_id: String::from("R"),
                reason: String::from("fraud"),
            },
            2,
        )
        .unwrap();
    let claim = claim.replay(events);
    assert_eq!(claim.status, ClaimStatus::Rejected);
}

#[test]
fn test_claim_fail_verification_only_when_submitted() {
    let claim = Claim::new(8);
    assert!(matches!(
        claim.handle_fail_verification(String::from("V"), String::from("missing"), 1),
        Err(ClaimError::ClaimNotFound(_))
    ));
    let events = claim
        .handle_submit(
            SubmitClaim {
                claim_id: 8,
                entity: String::from("policy"),
                entity_id: String::from("C1"),
                claim_data: None,
            },
            1,
        )
        .unwrap();
    let claim = claim.replay(events);
    let events = claim
        .handle_fail_verification(String::from("V"), String::from("missing"), 2)
        .unwrap();
    let claim = claim.replay(events);
    assert_eq!(claim.status, ClaimStatus::Invalid);
    // Failing again from Invalid is an invalid transition.
    assert!(matches!(
        claim.handle_fail_verification(String::from("V"), String::from("missing"), 3),
        Err(ClaimError::InvalidTransition { error_code: 400, .. })
    ));
}

#[test]
fn test_claim_replay_is_deterministic() {
    let events = vec![
        ClaimEvent::ClaimSubmitted {
            claim_id: 9,
            claimant_id: String::from("C1"),
            claim_data: None,
            timestamp: 1,
        },
        ClaimEvent::ClaimVerified {
            claim_id: 9,
            verifier_id: String::from("V1"),
            verified_at: 2,
        },
    ];
    let first = Claim::new(9).replay(events.clone());
    let second = Claim::new(9).replay(events);
    assert_eq!(first, second);
    assert_eq!(first.status, ClaimStatus::Verified);
}
