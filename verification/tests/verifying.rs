use anon_aadhaar::artifact::ArtifactError;
use anon_aadhaar::error::ProofError;
use anon_aadhaar::verifying::{is_all_zero, VerifyAction, VerifyEvent, VerifyFlow};

const ARTIFACT: &str = r#"{"bytecode":"H4sIAAAA","abi":{}}"#;

fn started(proof: Vec<u8>) -> VerifyFlow {
    VerifyFlow::start(ARTIFACT, "srs.local".to_string(), proof)
}

fn keyed(proof: Vec<u8>) -> VerifyFlow {
    started(proof).step(VerifyEvent::SrsReady).step(VerifyEvent::KeyReady(vec![4, 5]))
}

#[test]
fn verify_flow_runs_its_three_steps() {
    let flow = started(vec![1, 2, 3]);
    match flow.action() {
        VerifyAction::EnsureSrs { bytecode, srs_path } => {
            assert_eq!(bytecode, "H4sIAAAA");
            assert_eq!(srs_path, "srs.local");
        }
        other => panic!("unexpected action {:?}", other),
    }
    let flow = flow.step(VerifyEvent::SrsReady);
    match flow.action() {
        VerifyAction::DeriveKey { bytecode } => assert_eq!(bytecode, "H4sIAAAA"),
        other => panic!("unexpected action {:?}", other),
    }
    let flow = flow.step(VerifyEvent::KeyReady(vec![4, 5]));
    match flow.action() {
        VerifyAction::Verify { proof, key } => {
            assert_eq!(proof, &vec![1, 2, 3]);
            assert_eq!(key, &vec![4, 5]);
        }
        other => panic!("unexpected action {:?}", other),
    }
    let flow = flow.step(VerifyEvent::Verdict(true));
    assert!(matches!(flow.action(), VerifyAction::Finish));
    assert_eq!(flow.outcome(), Some(Ok(true)));
}

#[test]
fn invalid_proof_is_a_verdict_not_an_error() {
    assert_eq!(keyed(vec![1, 2, 3]).step(VerifyEvent::Verdict(false)).outcome(), Some(Ok(false)));
}

#[test]
fn empty_proof_is_never_accepted() {
    assert_eq!(keyed(Vec::new()).step(VerifyEvent::Verdict(true)).outcome(), Some(Ok(false)));
    assert_eq!(keyed(Vec::new()).step(VerifyEvent::Verdict(false)).outcome(), Some(Ok(false)));
}

#[test]
fn all_zero_proof_is_never_accepted() {
    assert_eq!(keyed(vec![0; 64]).step(VerifyEvent::Verdict(true)).outcome(), Some(Ok(false)));
    assert_eq!(keyed(vec![0]).step(VerifyEvent::Verdict(true)).outcome(), Some(Ok(false)));
    let mut almost = vec![0; 64];
    almost[63] = 1;
    assert_eq!(keyed(almost).step(VerifyEvent::Verdict(true)).outcome(), Some(Ok(true)));
}

#[test]
fn all_zero_test_on_bytes() {
    assert!(is_all_zero(&Vec::new()));
    assert!(is_all_zero(&vec![0, 0, 0]));
    assert!(!is_all_zero(&vec![0, 0, 1]));
    assert!(!is_all_zero(&vec![255, 0, 0]));
}

#[test]
fn no_verdict_before_the_end() {
    assert_eq!(started(vec![1]).outcome(), None);
    assert_eq!(started(vec![1]).step(VerifyEvent::SrsReady).outcome(), None);
    assert_eq!(keyed(vec![1]).outcome(), None);
}

#[test]
fn artifact_failure_ends_verification_at_once() {
    let flow = VerifyFlow::start("[", "srs.local".to_string(), vec![1]);
    assert!(matches!(flow.action(), VerifyAction::Finish));
    assert_eq!(flow.outcome(), Some(Err(ProofError::Artifact(ArtifactError::Malformed))));
    let flow = VerifyFlow::start(r#"{"bytecode":1}"#, "srs.local".to_string(), vec![1]);
    assert_eq!(flow.outcome(), Some(Err(ProofError::Artifact(ArtifactError::MissingBytecode))));
}

#[test]
fn srs_and_key_failures_are_srs_errors() {
    assert_eq!(started(vec![1]).step(VerifyEvent::SrsFailed).outcome(), Some(Err(ProofError::Srs)));
    assert_eq!(
        started(vec![1]).step(VerifyEvent::SrsReady).step(VerifyEvent::KeyFailed).outcome(),
        Some(Err(ProofError::Srs))
    );
}

#[test]
fn verifier_failure_is_a_backend_error() {
    assert_eq!(
        keyed(vec![1]).step(VerifyEvent::VerifierFailed).outcome(),
        Some(Err(ProofError::Backend))
    );
}

#[test]
fn verify_events_out_of_turn_change_nothing() {
    let flow = started(vec![1])
        .step(VerifyEvent::Verdict(true))
        .step(VerifyEvent::KeyReady(vec![9]))
        .step(VerifyEvent::KeyFailed)
        .step(VerifyEvent::VerifierFailed);
    assert!(matches!(flow.action(), VerifyAction::EnsureSrs { .. }));
    let flow = flow
        .step(VerifyEvent::SrsReady)
        .step(VerifyEvent::Verdict(true))
        .step(VerifyEvent::SrsFailed);
    assert!(matches!(flow.action(), VerifyAction::DeriveKey { .. }));
    let flow = flow
        .step(VerifyEvent::KeyReady(vec![4]))
        .step(VerifyEvent::KeyReady(vec![5]))
        .step(VerifyEvent::KeyFailed)
        .step(VerifyEvent::SrsFailed);
    match flow.action() {
        VerifyAction::Verify { key, .. } => assert_eq!(key, &vec![4]),
        other => panic!("unexpected action {:?}", other),
    }
}

#[test]
fn a_verdict_is_final() {
    let flow = keyed(vec![1])
        .step(VerifyEvent::Verdict(false))
        .step(VerifyEvent::Verdict(true))
        .step(VerifyEvent::VerifierFailed);
    assert_eq!(flow.outcome(), Some(Ok(false)));
    let flow = keyed(vec![1])
        .step(VerifyEvent::VerifierFailed)
        .step(VerifyEvent::Verdict(true));
    assert_eq!(flow.outcome(), Some(Err(ProofError::Backend)));
}
