//! The verify flow: the reference string is ensured, the verification key is
//! derived, the backend gives its verdict. The flow decides; its driver does
//! the outside work that an action names and hands back what came of it as an
//! event.

use crate::artifact::{artifact_bytecode, load_bytecode};
use crate::error::ProofError;
use vstd::prelude::*;

verus! {

/// Whether every byte is zero. This holds of the empty sequence too.
pub open spec fn all_zero(bytes: Seq<u8>) -> bool {
    forall|i: int| 0 <= i < bytes.len() ==> #[trigger] bytes[i] == 0
}

/// Whether every byte is zero, which holds of no bytes at all too.
pub fn is_all_zero(bytes: &Vec<u8>) -> (r: bool)
    ensures
        r == all_zero(bytes@),
{
    let mut i: usize = 0;
    while i < bytes.len()
        invariant
            i <= bytes.len(),
            forall|k: int| 0 <= k < i ==> #[trigger] bytes@[k] == 0,
        decreases bytes.len() - i,
    {
        if bytes[i] != 0 {
            return false;
        }
        i = i + 1;
    }
    true
}

/// The state of a verify flow, as plain values.
pub enum VerifyModel {
    /// Nothing has been done yet.
    Idle { bytecode: Seq<char>, srs_path: Seq<char>, proof: Seq<u8> },
    /// A usable reference string is in place.
    SrsEnsured { bytecode: Seq<char>, proof: Seq<u8> },
    /// The verification key has been derived.
    KeyDerived { proof: Seq<u8>, key: Seq<u8> },
    /// The verdict is in. The flow has ended.
    Verified { verdict: bool },
    /// A step has failed. The flow has ended.
    Failed { error: ProofError },
}

/// What came of the outside work that the driver did for a verify flow.
#[derive(Debug)]
pub enum VerifyEvent {
    /// A usable reference string is in place.
    SrsReady,
    /// No usable reference string could be put in place.
    SrsFailed,
    /// This verification key was derived from the bytecode.
    KeyReady(Vec<u8>),
    /// No verification key could be derived.
    KeyFailed,
    /// The backend checked the proof against the key and found it valid
    /// (`true`) or invalid (`false`).
    Verdict(bool),
    /// The backend could not be run to its end.
    VerifierFailed,
}

/// What the driver of a verify flow has to do next.
#[derive(Debug)]
pub enum VerifyAction<'a> {
    /// Ensure a reference string for this bytecode at this path, then report
    /// `SrsReady` or `SrsFailed`.
    EnsureSrs { bytecode: &'a str, srs_path: &'a str },
    /// Derive the verification key from this bytecode, then report `KeyReady`
    /// or `KeyFailed`.
    DeriveKey { bytecode: &'a str },
    /// Run the verifying backend on this proof and key, then report `Verdict`
    /// or `VerifierFailed`.
    Verify { proof: &'a Vec<u8>, key: &'a Vec<u8> },
    /// Nothing: the flow has ended, and `outcome` holds its result.
    Finish,
}

impl VerifyModel {
    /// Whether the flow has ended.
    pub open spec fn is_terminal(self) -> bool {
        self is Verified || self is Failed
    }
}

/// The state in which a verify flow starts: idle with the artifact's
/// bytecode, or failed where the artifact gives none.
pub open spec fn verify_start(
    artifact: Seq<char>,
    srs_path: Seq<char>,
    proof: Seq<u8>,
) -> VerifyModel {
    match artifact_bytecode(artifact) {
        Ok(bytecode) => VerifyModel::Idle { bytecode, srs_path, proof },
        Err(e) => VerifyModel::Failed { error: ProofError::Artifact(e) },
    }
}

/// What the flow says of a proof once the backend has spoken: a proof that
/// is empty or all zero is never accepted; of any other proof the flow says
/// what the backend said.
pub open spec fn guarded_verdict(proof: Seq<u8>, backend_verdict: bool) -> bool {
    backend_verdict && !all_zero(proof)
}

/// The state that follows a state on an event.
///
/// Each state answers to the outcome of its own action and to nothing else:
/// any other event leaves the state as it is, and a flow that has ended stays
/// as it is on every event. That the backend finds the proof invalid is a
/// verdict, not a failure.
pub open spec fn verify_transition(state: VerifyModel, event: VerifyEvent) -> VerifyModel {
    match (state, event) {
        (VerifyModel::Idle { bytecode, srs_path, proof }, VerifyEvent::SrsReady) => {
            VerifyModel::SrsEnsured { bytecode, proof }
        },
        (VerifyModel::Idle { .. }, VerifyEvent::SrsFailed) => {
            VerifyModel::Failed { error: ProofError::Srs }
        },
        (VerifyModel::SrsEnsured { bytecode, proof }, VerifyEvent::KeyReady(key)) => {
            VerifyModel::KeyDerived { proof, key: key@ }
        },
        (VerifyModel::SrsEnsured { .. }, VerifyEvent::KeyFailed) => {
            VerifyModel::Failed { error: ProofError::Srs }
        },
        (VerifyModel::KeyDerived { proof, key }, VerifyEvent::Verdict(valid)) => {
            VerifyModel::Verified { verdict: guarded_verdict(proof, valid) }
        },
        (VerifyModel::KeyDerived { .. }, VerifyEvent::VerifierFailed) => {
            VerifyModel::Failed { error: ProofError::Backend }
        },
        _ => state,
    }
}

/// Whether an action is the one that a state asks of the driver, with the
/// values of that state.
pub open spec fn verify_action_of(state: VerifyModel, action: VerifyAction) -> bool {
    match state {
        VerifyModel::Idle { bytecode, srs_path, .. } => {
            &&& action matches VerifyAction::EnsureSrs { bytecode: b, srs_path: p }
            &&& b@ == bytecode
            &&& p@ == srs_path
        },
        VerifyModel::SrsEnsured { bytecode, .. } => {
            &&& action matches VerifyAction::DeriveKey { bytecode: b }
            &&& b@ == bytecode
        },
        VerifyModel::KeyDerived { proof, key } => {
            &&& action matches VerifyAction::Verify { proof: p, key: k }
            &&& p@ == proof
            &&& k@ == key
        },
        VerifyModel::Verified { .. } => action is Finish,
        VerifyModel::Failed { .. } => action is Finish,
    }
}

/// The result that a state holds for the caller: the verdict of a flow that
/// has verified, the error of one that has failed, nothing before the end.
pub open spec fn verify_outcome(state: VerifyModel) -> Option<Result<bool, ProofError>> {
    match state {
        VerifyModel::Verified { verdict } => Some(Ok(verdict)),
        VerifyModel::Failed { error } => Some(Err(error)),
        _ => None,
    }
}

/// The state that a flow is in after a run of events, first event first.
pub open spec fn verify_run(state: VerifyModel, events: Seq<VerifyEvent>) -> VerifyModel
    decreases events.len(),
{
    if events.len() == 0 {
        state
    } else {
        verify_transition(verify_run(state, events.drop_last()), events.last())
    }
}

/// Whether a run of events holds a given event.
pub open spec fn has_event(events: Seq<VerifyEvent>, event: VerifyEvent) -> bool {
    exists|k: int| 0 <= k < events.len() && #[trigger] events[k] == event
}

/// Whether a run of events holds the report of a verification key with
/// these bytes.
pub open spec fn has_key(events: Seq<VerifyEvent>, key: Seq<u8>) -> bool {
    exists|k: int|
        0 <= k < events.len() && (#[trigger] events[k] matches VerifyEvent::KeyReady(bytes)
            && bytes@ == key)
}

/// Whether `state` is accounted for by the events that led to it from an idle
/// flow on `bytecode` and `proof`: the flow holds the bytecode and proof that
/// it started with; it is past the reference string only after `SrsReady`; its
/// key was reported by the backend; it accepts only a proof that the
/// backend found valid and that is not all zero; and its error names the step
/// that failed.
pub open spec fn verify_accounted(
    bytecode: Seq<char>,
    srs_path: Seq<char>,
    proof: Seq<u8>,
    events: Seq<VerifyEvent>,
    state: VerifyModel,
) -> bool {
    match state {
        VerifyModel::Idle { .. } => state == (VerifyModel::Idle { bytecode, srs_path, proof }),
        VerifyModel::SrsEnsured { .. } => {
            &&& state == (VerifyModel::SrsEnsured { bytecode, proof })
            &&& has_event(events, VerifyEvent::SrsReady)
        },
        VerifyModel::KeyDerived { key, .. } => {
            &&& state == (VerifyModel::KeyDerived { proof, key })
            &&& has_event(events, VerifyEvent::SrsReady)
            &&& has_key(events, key)
        },
        VerifyModel::Verified { verdict } => {
            &&& has_event(events, VerifyEvent::SrsReady)
            &&& exists|key: Seq<u8>| has_key(events, key)
            &&& verdict ==> has_event(events, VerifyEvent::Verdict(true)) && !all_zero(proof)
            &&& !verdict ==> has_event(events, VerifyEvent::Verdict(false)) || all_zero(proof)
        },
        VerifyModel::Failed { error } => match error {
            ProofError::Srs => has_event(events, VerifyEvent::SrsFailed) || has_event(
                events,
                VerifyEvent::KeyFailed,
            ),
            ProofError::Backend => has_event(events, VerifyEvent::VerifierFailed),
            _ => false,
        },
    }
}

/// A report that is repeated counts once: the second of two equal events in a
/// row changes nothing.
pub proof fn lemma_verify_repeat_changes_nothing(state: VerifyModel, event: VerifyEvent)
    ensures
        verify_transition(verify_transition(state, event), event) == verify_transition(state, event),
{
}

/// A flow that has ended stays as it is, whatever is reported to it: its
/// verdict or its error is final.
pub proof fn lemma_verify_end_is_final(state: VerifyModel, events: Seq<VerifyEvent>)
    requires
        state.is_terminal(),
    ensures
        verify_run(state, events) == state,
    decreases events.len(),
{
    if events.len() > 0 {
        lemma_verify_end_is_final(state, events.drop_last());
    }
}

/// Where every step is carried out, the flow ends with a verdict and never
/// with an error: the backend's verdict of a proof that is not all zero,
/// `false` of one that is.
pub proof fn lemma_verify_gives_verdict(
    artifact: Seq<char>,
    srs_path: Seq<char>,
    proof: Seq<u8>,
    key: Vec<u8>,
    valid: bool,
)
    requires
        artifact_bytecode(artifact) is Ok,
    ensures
        verify_run(
            verify_start(artifact, srs_path, proof),
            seq![VerifyEvent::SrsReady, VerifyEvent::KeyReady(key), VerifyEvent::Verdict(valid)],
        ) == (VerifyModel::Verified { verdict: valid && !all_zero(proof) }),
{
    let start = verify_start(artifact, srs_path, proof);
    let events = seq![
        VerifyEvent::SrsReady,
        VerifyEvent::KeyReady(key),
        VerifyEvent::Verdict(valid),
    ];
    let two = events.drop_last();
    let one = two.drop_last();
    assert(one.drop_last().len() == 0);
    assert(verify_run(start, one.drop_last()) == start);
    assert(one.last() == VerifyEvent::SrsReady);
    assert(two.last() == VerifyEvent::KeyReady(key));
    assert(events.last() == VerifyEvent::Verdict(valid));
    assert(verify_run(start, one) == verify_transition(start, VerifyEvent::SrsReady));
    assert(verify_run(start, two) == verify_transition(
        verify_run(start, one),
        VerifyEvent::KeyReady(key),
    ));
    assert(verify_run(start, events) == verify_transition(
        verify_run(start, two),
        VerifyEvent::Verdict(valid),
    ));
}

/// Every state of a flow is accounted for by the events that led to it. In
/// particular a proof is accepted only where the reference string was
/// ensured, a key was derived and the backend found the proof valid; and an
/// error names the step that failed.
pub proof fn lemma_verify_accounted(
    bytecode: Seq<char>,
    srs_path: Seq<char>,
    proof: Seq<u8>,
    events: Seq<VerifyEvent>,
)
    ensures
        verify_accounted(
            bytecode,
            srs_path,
            proof,
            events,
            verify_run(VerifyModel::Idle { bytecode, srs_path, proof }, events),
        ),
    decreases events.len(),
{
    if events.len() > 0 {
        let before = events.drop_last();
        lemma_verify_accounted(bytecode, srs_path, proof, before);
        let start = VerifyModel::Idle { bytecode, srs_path, proof };
        let state = verify_run(start, before);
        let next = verify_run(start, events);
        let last = events.len() - 1;
        assert(next == verify_transition(state, events[last]));
        lemma_events_kept(events, VerifyEvent::SrsReady);
        lemma_events_kept(events, VerifyEvent::SrsFailed);
        lemma_events_kept(events, VerifyEvent::KeyFailed);
        lemma_events_kept(events, VerifyEvent::VerifierFailed);
        lemma_events_kept(events, VerifyEvent::Verdict(true));
        lemma_events_kept(events, VerifyEvent::Verdict(false));
        assert forall|key: Seq<u8>| has_key(before, key) implies has_key(events, key) by {
            let k = choose|k: int|
                0 <= k < before.len() && (#[trigger] before[k] matches VerifyEvent::KeyReady(bytes)
                    && bytes@ == key);
            assert(events[k] matches VerifyEvent::KeyReady(bytes) && bytes@ == key);
        }
        if state != next {
            assert(events[last] == events[last]);
        }
    }
}

/// An event of a run is an event of every longer run, and the last event of
/// a run is one of its events.
pub proof fn lemma_events_kept(events: Seq<VerifyEvent>, event: VerifyEvent)
    requires
        events.len() > 0,
    ensures
        has_event(events.drop_last(), event) ==> has_event(events, event),
        events.last() == event ==> has_event(events, event),
{
    let before = events.drop_last();
    if has_event(before, event) {
        let k = choose|k: int| 0 <= k < before.len() && #[trigger] before[k] == event;
        assert(events[k] == event);
    }
    if events.last() == event {
        assert(events[events.len() - 1] == event);
    }
}

/// A proof that is empty or all zero is never accepted, whatever the backend
/// reports.
pub proof fn lemma_degenerate_proof_rejected(
    bytecode: Seq<char>,
    srs_path: Seq<char>,
    proof: Seq<u8>,
    events: Seq<VerifyEvent>,
)
    requires
        all_zero(proof),
    ensures
        verify_outcome(verify_run(VerifyModel::Idle { bytecode, srs_path, proof }, events)) != Some(
            Ok::<bool, ProofError>(true),
        ),
{
    lemma_verify_accounted(bytecode, srs_path, proof, events);
}

/// The state of a verify flow with what it holds.
#[derive(Debug)]
enum VerifyState {
    Idle { bytecode: String, srs_path: String, proof: Vec<u8> },
    SrsEnsured { bytecode: String, proof: Vec<u8> },
    KeyDerived { proof: Vec<u8>, key: Vec<u8> },
    Verified { verdict: bool },
    Failed { error: ProofError },
}

/// A verify flow.
#[derive(Debug)]
pub struct VerifyFlow {
    state: VerifyState,
}

impl View for VerifyFlow {
    type V = VerifyModel;

    closed spec fn view(&self) -> VerifyModel {
        match self.state {
            VerifyState::Idle { bytecode, srs_path, proof } => VerifyModel::Idle {
                bytecode: bytecode@,
                srs_path: srs_path@,
                proof: proof@,
            },
            VerifyState::SrsEnsured { bytecode, proof } => VerifyModel::SrsEnsured {
                bytecode: bytecode@,
                proof: proof@,
            },
            VerifyState::KeyDerived { proof, key } => VerifyModel::KeyDerived {
                proof: proof@,
                key: key@,
            },
            VerifyState::Verified { verdict } => VerifyModel::Verified { verdict },
            VerifyState::Failed { error } => VerifyModel::Failed { error },
        }
    }
}

impl VerifyFlow {
    /// Starts a verify flow for the circuit of an artifact, on a proof.
    pub fn start(artifact: &str, srs_path: String, proof: Vec<u8>) -> (r: VerifyFlow)
        ensures
            r@ == verify_start(artifact@, srs_path@, proof@),
    {
        match load_bytecode(artifact) {
            Ok(bytecode) => VerifyFlow { state: VerifyState::Idle { bytecode, srs_path, proof } },
            Err(e) => VerifyFlow { state: VerifyState::Failed { error: ProofError::Artifact(e) } },
        }
    }

    /// What the driver has to do next.
    pub fn action(&self) -> (a: VerifyAction<'_>)
        ensures
            verify_action_of(self@, a),
    {
        match &self.state {
            VerifyState::Idle { bytecode, srs_path, .. } => VerifyAction::EnsureSrs {
                bytecode: bytecode.as_str(),
                srs_path: srs_path.as_str(),
            },
            VerifyState::SrsEnsured { bytecode, .. } => VerifyAction::DeriveKey {
                bytecode: bytecode.as_str(),
            },
            VerifyState::KeyDerived { proof, key } => VerifyAction::Verify { proof, key },
            VerifyState::Verified { .. } => VerifyAction::Finish,
            VerifyState::Failed { .. } => VerifyAction::Finish,
        }
    }

    /// Takes the flow to the state that follows on an event.
    pub fn step(self, event: VerifyEvent) -> (next: VerifyFlow)
        ensures
            next@ == verify_transition(self@, event),
    {
        match (self.state, event) {
            (VerifyState::Idle { bytecode, srs_path, proof }, VerifyEvent::SrsReady) => {
                VerifyFlow { state: VerifyState::SrsEnsured { bytecode, proof } }
            },
            (VerifyState::Idle { .. }, VerifyEvent::SrsFailed) => {
                VerifyFlow { state: VerifyState::Failed { error: ProofError::Srs } }
            },
            (VerifyState::SrsEnsured { bytecode, proof }, VerifyEvent::KeyReady(key)) => {
                VerifyFlow { state: VerifyState::KeyDerived { proof, key } }
            },
            (VerifyState::SrsEnsured { .. }, VerifyEvent::KeyFailed) => {
                VerifyFlow { state: VerifyState::Failed { error: ProofError::Srs } }
            },
            (VerifyState::KeyDerived { proof, key }, VerifyEvent::Verdict(valid)) => {
                let verdict = valid && !is_all_zero(&proof);
                VerifyFlow { state: VerifyState::Verified { verdict } }
            },
            (VerifyState::KeyDerived { .. }, VerifyEvent::VerifierFailed) => {
                VerifyFlow { state: VerifyState::Failed { error: ProofError::Backend } }
            },
            (state, _) => VerifyFlow { state },
        }
    }

    /// The result of the flow: the verdict where it has verified, the error
    /// where it has failed, and nothing while it has not ended.
    pub fn outcome(self) -> (r: Option<Result<bool, ProofError>>)
        ensures
            r == verify_outcome(self@),
    {
        match self.state {
            VerifyState::Verified { verdict } => Some(Ok(verdict)),
            VerifyState::Failed { error } => Some(Err(error)),
            _ => None,
        }
    }
}

} // verus!
