use anon_aadhaar::inputs::NamedInputs;
use anon_aadhaar::proving::{ProveAction, ProveEvent, ProveFlow};
use anon_aadhaar::verifying::{VerifyAction, VerifyEvent, VerifyFlow};
use anon_aadhaar::witness::WitnessAssignment;

const ARTIFACT: &str = r#"{"noir_version":"1.0.0","bytecode":"H4sIAAAAAAAA/+1dB5gUxRKe","abi":{}}"#;

fn strings(items: &[&str]) -> Vec<String> {
    items.iter().map(|s| s.to_string()).collect()
}

fn sample() -> NamedInputs {
    NamedInputs {
        storage: strings(&["86", "50", "255", "51", "255", "0", "0", "0"]),
        content_length: "5".to_string(),
        padded_length: "8".to_string(),
        delimiter_indices: strings(&["2", "4"]),
        signature_limbs: strings(&[
            "1101023014898332444389397371890394159",
            "377287425183899298366098099744574128",
        ]),
        modulus_limbs: strings(&[
            "1195943216729657697629311647181614613",
            "311199859312043123142636502499991710",
        ]),
        reduction_limbs: strings(&[
            "71052224862953134208586910371179425",
            "1176151342704061563049142819150811968",
        ]),
        reveal_age_above18: "1".to_string(),
        reveal_gender: "0".to_string(),
        reveal_pin_code: "0".to_string(),
        reveal_state: "1".to_string(),
        nullifier_seed: "12345678".to_string(),
        signal_hash: "1001".to_string(),
    }
}

// A stand-in for the proving backend: the low limb of every slot, in order.
fn stand_in_proof(witness: &WitnessAssignment) -> Vec<u8> {
    let mut out = Vec::new();
    for slot in 0..witness.len() {
        out.extend_from_slice(&witness.get(slot).unwrap().limbs().0.to_le_bytes());
    }
    out
}

fn drive_prove(mut flow: ProveFlow) -> Option<Result<Vec<u8>, anon_aadhaar::error::ProofError>> {
    loop {
        let event = match flow.action() {
            ProveAction::EnsureSrs { .. } => ProveEvent::SrsReady,
            ProveAction::BuildWitness => ProveEvent::WitnessRequested,
            ProveAction::Prove { witness, .. } => {
                ProveEvent::ProofProduced(stand_in_proof(witness))
            }
            ProveAction::Finish => return flow.outcome(),
        };
        flow = flow.step(event);
    }
}

fn drive_verify(
    mut flow: VerifyFlow,
    expected: &[u8],
) -> Option<Result<bool, anon_aadhaar::error::ProofError>> {
    loop {
        let event = match flow.action() {
            VerifyAction::EnsureSrs { .. } => VerifyEvent::SrsReady,
            VerifyAction::DeriveKey { bytecode } => {
                VerifyEvent::KeyReady(bytecode.as_bytes().to_vec())
            }
            VerifyAction::Verify { proof, .. } => {
                VerifyEvent::Verdict(proof.as_slice() == expected)
            }
            VerifyAction::Finish => return flow.outcome(),
        };
        flow = flow.step(event);
    }
}

#[test]
fn prove_then_verify_with_a_stand_in_backend() {
    let named = sample();
    let schema = named.schema().unwrap();
    let flow = ProveFlow::start(ARTIFACT, "anon_srs.local".to_string(), named.flatten(), &schema);
    let proof = drive_prove(flow).unwrap().unwrap();
    assert!(!proof.is_empty());
    assert_eq!(proof.len(), 8 * schema.slot_count());
    let flow = VerifyFlow::start(ARTIFACT, "anon_srs.local".to_string(), proof.clone());
    assert_eq!(drive_verify(flow, &proof), Some(Ok(true)));
}

#[test]
fn tampered_proof_gets_the_verdict_false() {
    let named = sample();
    let schema = named.schema().unwrap();
    let flow = ProveFlow::start(ARTIFACT, "anon_srs.local".to_string(), named.flatten(), &schema);
    let proof = drive_prove(flow).unwrap().unwrap();
    let mut tampered = proof.clone();
    tampered[0] ^= 1;
    let flow = VerifyFlow::start(ARTIFACT, "anon_srs.local".to_string(), tampered);
    assert_eq!(drive_verify(flow, &proof), Some(Ok(false)));
}

#[test]
fn swapped_seed_and_hash_give_another_witness() {
    let named = sample();
    let schema = named.schema().unwrap();
    let mut swapped = sample();
    swapped.nullifier_seed = named.signal_hash.clone();
    swapped.signal_hash = named.nullifier_seed.clone();
    let a = drive_prove(ProveFlow::start(ARTIFACT, "p".to_string(), named.flatten(), &schema));
    let b = drive_prove(ProveFlow::start(ARTIFACT, "p".to_string(), swapped.flatten(), &schema));
    let a = a.unwrap().unwrap();
    let b = b.unwrap().unwrap();
    assert_ne!(a, b);
    let flow = VerifyFlow::start(ARTIFACT, "p".to_string(), b);
    assert_eq!(drive_verify(flow, &a), Some(Ok(false)));
}
