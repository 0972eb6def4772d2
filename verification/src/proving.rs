//! The prove flow: the reference string is ensured, the witness is built, the
//! backend proves. The flow decides; its driver does the outside work that an
//! action names and hands back what came of it as an event.

use crate::artifact::{artifact_bytecode, load_bytecode};
use crate::error::ProofError;
use crate::field::field_modulus;
use crate::inputs::texts;
use crate::schema::WitnessSchema;
use crate::witness::{
    encode_exact, encoding, lemma_encoding_reduced, EncodingError, WitnessAssignment,
};
use vstd::prelude::*;

verus! {

/// The state of a prove flow, as plain values.
pub enum ProveModel {
    /// Nothing has been done yet.
    Idle { bytecode: Seq<char>, srs_path: Seq<char>, inputs: Seq<Seq<char>>, expected: nat },
    /// A usable reference string is in place.
    SrsEnsured { bytecode: Seq<char>, inputs: Seq<Seq<char>>, expected: nat },
    /// The inputs have been encoded.
    WitnessBuilt { bytecode: Seq<char>, witness: Seq<nat> },
    /// The backend has produced a proof. The flow has ended.
    Proved { proof: Seq<u8> },
    /// A step has failed. The flow has ended.
    Failed { error: ProofError },
}

/// What came of the outside work that the driver did for a prove flow.
#[derive(Debug)]
pub enum ProveEvent {
    /// A usable reference string is in place.
    SrsReady,
    /// No usable reference string could be put in place.
    SrsFailed,
    /// The driver asks for the witness to be built.
    WitnessRequested,
    /// The backend produced these proof bytes.
    ProofProduced(Vec<u8>),
    /// The backend could not be run to its end.
    ProverFailed,
}

/// What the driver of a prove flow has to do next.
#[derive(Debug)]
pub enum ProveAction<'a> {
    /// Ensure a reference string for this bytecode at this path, then report
    /// `SrsReady` or `SrsFailed`.
    EnsureSrs { bytecode: &'a str, srs_path: &'a str },
    /// Report `WitnessRequested`: the flow builds the witness itself.
    BuildWitness,
    /// Run the proving backend on this bytecode and witness, then report
    /// `ProofProduced` or `ProverFailed`.
    Prove { bytecode: &'a str, witness: &'a WitnessAssignment },
    /// Nothing: the flow has ended, and `outcome` holds its result.
    Finish,
}

impl ProveModel {
    /// Whether the flow has ended.
    pub open spec fn is_terminal(self) -> bool {
        self is Proved || self is Failed
    }

    /// What holds of every state that a flow can be in: a witness holds
    /// reduced field elements, and a proof is not empty.
    pub open spec fn wf(self) -> bool {
        match self {
            ProveModel::WitnessBuilt { witness, .. } => forall|i: int|
                0 <= i < witness.len() ==> #[trigger] witness[i] < field_modulus(),
            ProveModel::Proved { proof } => proof.len() > 0,
            _ => true,
        }
    }
}

/// The state in which a prove flow starts: idle with the artifact's bytecode,
/// or failed where the artifact gives none.
pub open spec fn prove_start(
    artifact: Seq<char>,
    srs_path: Seq<char>,
    inputs: Seq<Seq<char>>,
    expected: nat,
) -> ProveModel {
    match artifact_bytecode(artifact) {
        Ok(bytecode) => ProveModel::Idle { bytecode, srs_path, inputs, expected },
        Err(e) => ProveModel::Failed { error: ProofError::Artifact(e) },
    }
}

/// The state that follows a state on an event.
///
/// Each state answers to the outcome of its own action and to nothing else:
/// any other event leaves the state as it is, and a flow that has ended stays
/// as it is on every event.
pub open spec fn prove_transition(state: ProveModel, event: ProveEvent) -> ProveModel {
    match (state, event) {
        (ProveModel::Idle { bytecode, srs_path, inputs, expected }, ProveEvent::SrsReady) => {
            ProveModel::SrsEnsured { bytecode, inputs, expected }
        },
        (ProveModel::Idle { .. }, ProveEvent::SrsFailed) => {
            ProveModel::Failed { error: ProofError::Srs }
        },
        (ProveModel::SrsEnsured { bytecode, inputs, expected }, ProveEvent::WitnessRequested) => {
            match encoding(inputs, expected) {
                Ok(witness) => ProveModel::WitnessBuilt { bytecode, witness },
                Err(e) => ProveModel::Failed { error: ProofError::Encoding(e) },
            }
        },
        (ProveModel::WitnessBuilt { .. }, ProveEvent::ProofProduced(proof)) => {
            if proof@.len() > 0 {
                ProveModel::Proved { proof: proof@ }
            } else {
                ProveModel::Failed { error: ProofError::Backend }
            }
        },
        (ProveModel::WitnessBuilt { .. }, ProveEvent::ProverFailed) => {
            ProveModel::Failed { error: ProofError::Backend }
        },
        _ => state,
    }
}

/// Whether an action is the one that a state asks of the driver, with the
/// values of that state.
pub open spec fn prove_action_of(state: ProveModel, action: ProveAction) -> bool {
    match state {
        ProveModel::Idle { bytecode, srs_path, .. } => {
            &&& action matches ProveAction::EnsureSrs { bytecode: b, srs_path: p }
            &&& b@ == bytecode
            &&& p@ == srs_path
        },
        ProveModel::SrsEnsured { .. } => action is BuildWitness,
        ProveModel::WitnessBuilt { bytecode, witness } => {
            &&& action matches ProveAction::Prove { bytecode: b, witness: w }
            &&& b@ == bytecode
            &&& w@ == witness
            &&& w.wf()
        },
        ProveModel::Proved { .. } => action is Finish,
        ProveModel::Failed { .. } => action is Finish,
    }
}

/// The result that a state holds for the caller: the proof of a flow that has
/// proved, the error of one that has failed, nothing before the end.
pub open spec fn prove_outcome(state: ProveModel) -> Option<Result<Seq<u8>, ProofError>> {
    match state {
        ProveModel::Proved { proof } => Some(Ok(proof)),
        ProveModel::Failed { error } => Some(Err(error)),
        _ => None,
    }
}

/// The state that a flow is in after a run of events, first event first.
pub open spec fn prove_run(state: ProveModel, events: Seq<ProveEvent>) -> ProveModel
    decreases events.len(),
{
    if events.len() == 0 {
        state
    } else {
        prove_transition(prove_run(state, events.drop_last()), events.last())
    }
}

/// Whether a run of events holds a given event.
pub open spec fn has_event(events: Seq<ProveEvent>, event: ProveEvent) -> bool {
    exists|k: int| 0 <= k < events.len() && #[trigger] events[k] == event
}

/// Whether a run of events holds the report of a proof with these bytes.
pub open spec fn has_proof(events: Seq<ProveEvent>, proof: Seq<u8>) -> bool {
    exists|k: int|
        0 <= k < events.len() && (#[trigger] events[k] matches ProveEvent::ProofProduced(p) && p@
            == proof)
}

/// Whether `state` is accounted for by the events that led to it from an idle
/// flow on `bytecode`, `inputs` and `expected`:
/// the flow holds the bytecode and inputs that it started with; it is past
/// the reference string only after `SrsReady`; its witness is the encoding of
/// its inputs; its proof is not empty and was reported by the backend; and its
/// error names the step that failed.
pub open spec fn prove_accounted(
    bytecode: Seq<char>,
    srs_path: Seq<char>,
    inputs: Seq<Seq<char>>,
    expected: nat,
    events: Seq<ProveEvent>,
    state: ProveModel,
) -> bool {
    match state {
        ProveModel::Idle { .. } => state == (ProveModel::Idle {
            bytecode,
            srs_path,
            inputs,
            expected,
        }),
        ProveModel::SrsEnsured { .. } => {
            &&& state == (ProveModel::SrsEnsured { bytecode, inputs, expected })
            &&& has_event(events, ProveEvent::SrsReady)
        },
        ProveModel::WitnessBuilt { .. } => {
            &&& encoding(inputs, expected) is Ok
            &&& state == (ProveModel::WitnessBuilt {
                bytecode,
                witness: encoding(inputs, expected)->Ok_0,
            })
            &&& has_event(events, ProveEvent::SrsReady)
        },
        ProveModel::Proved { proof } => {
            &&& encoding(inputs, expected) is Ok
            &&& has_event(events, ProveEvent::SrsReady)
            &&& has_proof(events, proof)
            &&& proof.len() > 0
        },
        ProveModel::Failed { error } => match error {
            ProofError::Artifact(_) => false,
            ProofError::Srs => has_event(events, ProveEvent::SrsFailed),
            ProofError::Encoding(e) => {
                &&& has_event(events, ProveEvent::SrsReady)
                &&& encoding(inputs, expected) == Err::<Seq<nat>, EncodingError>(e)
            },
            ProofError::Backend => {
                &&& encoding(inputs, expected) is Ok
                &&& has_event(events, ProveEvent::ProverFailed) || has_proof(events, Seq::empty())
            },
        },
    }
}

/// A step keeps a flow in a state that a flow can be in.
pub proof fn lemma_prove_transition_wf(state: ProveModel, event: ProveEvent)
    requires
        state.wf(),
    ensures
        prove_transition(state, event).wf(),
{
    if let ProveModel::SrsEnsured { inputs, expected, .. } = state {
        if encoding(inputs, expected) is Ok {
            lemma_encoding_reduced(inputs, expected);
        }
    }
}

/// A report that is repeated counts once: the second of two equal events in a
/// row changes nothing.
pub proof fn lemma_prove_repeat_changes_nothing(state: ProveModel, event: ProveEvent)
    ensures
        prove_transition(prove_transition(state, event), event) == prove_transition(state, event),
{
}

/// A flow that has ended stays as it is, whatever is reported to it: its
/// proof or its error is final.
pub proof fn lemma_prove_end_is_final(state: ProveModel, events: Seq<ProveEvent>)
    requires
        state.is_terminal(),
    ensures
        prove_run(state, events) == state,
    decreases events.len(),
{
    if events.len() > 0 {
        lemma_prove_end_is_final(state, events.drop_last());
    }
}

/// Where every step succeeds, the flow ends with the proof that the backend
/// produced: from an artifact that holds bytecode, inputs that encode, and a
/// proof that is not empty.
pub proof fn lemma_prove_succeeds(
    artifact: Seq<char>,
    srs_path: Seq<char>,
    inputs: Seq<Seq<char>>,
    expected: nat,
    proof: Vec<u8>,
)
    requires
        artifact_bytecode(artifact) is Ok,
        encoding(inputs, expected) is Ok,
        proof@.len() > 0,
    ensures
        prove_run(
            prove_start(artifact, srs_path, inputs, expected),
            seq![
                ProveEvent::SrsReady,
                ProveEvent::WitnessRequested,
                ProveEvent::ProofProduced(proof),
            ],
        ) == (ProveModel::Proved { proof: proof@ }),
{
    let start = prove_start(artifact, srs_path, inputs, expected);
    let events = seq![
        ProveEvent::SrsReady,
        ProveEvent::WitnessRequested,
        ProveEvent::ProofProduced(proof),
    ];
    let two = events.drop_last();
    let one = two.drop_last();
    assert(one.drop_last().len() == 0);
    assert(prove_run(start, one.drop_last()) == start);
    assert(one.last() == ProveEvent::SrsReady);
    assert(two.last() == ProveEvent::WitnessRequested);
    assert(events.last() == ProveEvent::ProofProduced(proof));
    assert(prove_run(start, one) == prove_transition(start, ProveEvent::SrsReady));
    assert(prove_run(start, two) == prove_transition(
        prove_run(start, one),
        ProveEvent::WitnessRequested,
    ));
    assert(prove_run(start, events) == prove_transition(
        prove_run(start, two),
        ProveEvent::ProofProduced(proof),
    ));
}

/// Every state of a flow is accounted for by the events that led to it. In
/// particular no proof is handed out unless the reference string was ensured,
/// the witness was encoded from the flow's own inputs in the order given, and
/// the backend reported that proof; and an error names the step that failed.
pub proof fn lemma_prove_accounted(
    bytecode: Seq<char>,
    srs_path: Seq<char>,
    inputs: Seq<Seq<char>>,
    expected: nat,
    events: Seq<ProveEvent>,
)
    ensures
        prove_accounted(
            bytecode,
            srs_path,
            inputs,
            expected,
            events,
            prove_run(ProveModel::Idle { bytecode, srs_path, inputs, expected }, events),
        ),
    decreases events.len(),
{
    if events.len() > 0 {
        let before = events.drop_last();
        lemma_prove_accounted(bytecode, srs_path, inputs, expected, before);
        let start = ProveModel::Idle { bytecode, srs_path, inputs, expected };
        let state = prove_run(start, before);
        let next = prove_run(start, events);
        let last = events.len() - 1;
        assert(next == prove_transition(state, events[last]));
        assert(forall|k: int| 0 <= k < before.len() ==> before[k] == events[k]);
        if has_event(before, ProveEvent::SrsReady) {
            let k = choose|k: int|
                0 <= k < before.len() && #[trigger] before[k] == ProveEvent::SrsReady;
            assert(events[k] == ProveEvent::SrsReady);
        }
        if has_event(before, ProveEvent::SrsFailed) {
            let k = choose|k: int|
                0 <= k < before.len() && #[trigger] before[k] == ProveEvent::SrsFailed;
            assert(events[k] == ProveEvent::SrsFailed);
        }
        if has_event(before, ProveEvent::ProverFailed) {
            let k = choose|k: int|
                0 <= k < before.len() && #[trigger] before[k] == ProveEvent::ProverFailed;
            assert(events[k] == ProveEvent::ProverFailed);
        }
        if let ProveModel::Proved { proof } = state {
            let k = choose|k: int|
                0 <= k < before.len() && (#[trigger] before[k] matches ProveEvent::ProofProduced(p)
                    && p@ == proof);
            assert(events[k] matches ProveEvent::ProofProduced(p) && p@ == proof);
        }
        if has_proof(before, Seq::empty()) {
            let k = choose|k: int|
                0 <= k < before.len() && (#[trigger] before[k] matches ProveEvent::ProofProduced(p)
                    && p@ == Seq::<u8>::empty());
            assert(events[k] matches ProveEvent::ProofProduced(p) && p@ == Seq::<u8>::empty());
        }
        if state != next {
            assert(events[last] == events[last]);
            if let ProveEvent::ProofProduced(p) = events[last] {
                if p@.len() == 0 {
                    assert(p@ =~= Seq::<u8>::empty());
                }
            }
        }
    }
}

/// The state of a prove flow with what it holds.
#[derive(Debug)]
enum ProveState {
    Idle { bytecode: String, srs_path: String, inputs: Vec<String>, expected: usize },
    SrsEnsured { bytecode: String, inputs: Vec<String>, expected: usize },
    WitnessBuilt { bytecode: String, witness: WitnessAssignment },
    Proved { proof: Vec<u8> },
    Failed { error: ProofError },
}

/// A prove flow.
#[derive(Debug)]
pub struct ProveFlow {
    state: ProveState,
}

impl View for ProveFlow {
    type V = ProveModel;

    closed spec fn view(&self) -> ProveModel {
        match self.state {
            ProveState::Idle { bytecode, srs_path, inputs, expected } => ProveModel::Idle {
                bytecode: bytecode@,
                srs_path: srs_path@,
                inputs: texts(inputs@),
                expected: expected as nat,
            },
            ProveState::SrsEnsured { bytecode, inputs, expected } => ProveModel::SrsEnsured {
                bytecode: bytecode@,
                inputs: texts(inputs@),
                expected: expected as nat,
            },
            ProveState::WitnessBuilt { bytecode, witness } => ProveModel::WitnessBuilt {
                bytecode: bytecode@,
                witness: witness@,
            },
            ProveState::Proved { proof } => ProveModel::Proved { proof: proof@ },
            ProveState::Failed { error } => ProveModel::Failed { error },
        }
    }
}

impl ProveFlow {
    /// Every flow is in a state that a flow can be in.
    #[verifier::type_invariant]
    spec fn well_formed(&self) -> bool {
        self@.wf()
    }

    /// Starts a prove flow for the circuit of an artifact, on a flat input
    /// list, for a witness as the schema describes it.
    pub fn start(
        artifact: &str,
        srs_path: String,
        inputs: Vec<String>,
        schema: &WitnessSchema,
    ) -> (r: ProveFlow)
        ensures
            r@.wf(),
            r@ == prove_start(artifact@, srs_path@, texts(inputs@), schema.spec_slot_count()),
    {
        match load_bytecode(artifact) {
            Ok(bytecode) => {
                let expected = schema.slot_count();
                ProveFlow { state: ProveState::Idle { bytecode, srs_path, inputs, expected } }
            },
            Err(e) => ProveFlow { state: ProveState::Failed { error: ProofError::Artifact(e) } },
        }
    }

    /// What the driver has to do next.
    pub fn action(&self) -> (a: ProveAction<'_>)
        ensures
            prove_action_of(self@, a),
    {
        proof {
            use_type_invariant(self);
        }
        match &self.state {
            ProveState::Idle { bytecode, srs_path, .. } => ProveAction::EnsureSrs {
                bytecode: bytecode.as_str(),
                srs_path: srs_path.as_str(),
            },
            ProveState::SrsEnsured { .. } => ProveAction::BuildWitness,
            ProveState::WitnessBuilt { bytecode, witness } => ProveAction::Prove {
                bytecode: bytecode.as_str(),
                witness,
            },
            ProveState::Proved { .. } => ProveAction::Finish,
            ProveState::Failed { .. } => ProveAction::Finish,
        }
    }

    /// Takes the flow to the state that follows on an event.
    pub fn step(self, event: ProveEvent) -> (next: ProveFlow)
        ensures
            next@.wf(),
            next@ == prove_transition(self@, event),
    {
        proof {
            use_type_invariant(&self);
        }
        match (self.state, event) {
            (ProveState::Idle { bytecode, srs_path, inputs, expected }, ProveEvent::SrsReady) => {
                ProveFlow { state: ProveState::SrsEnsured { bytecode, inputs, expected } }
            },
            (ProveState::Idle { .. }, ProveEvent::SrsFailed) => {
                ProveFlow { state: ProveState::Failed { error: ProofError::Srs } }
            },
            (
                ProveState::SrsEnsured { bytecode, inputs, expected },
                ProveEvent::WitnessRequested,
            ) => {
                match encode_exact(&inputs, expected) {
                    Ok(witness) => ProveFlow {
                        state: ProveState::WitnessBuilt { bytecode, witness },
                    },
                    Err(e) => ProveFlow {
                        state: ProveState::Failed { error: ProofError::Encoding(e) },
                    },
                }
            },
            (ProveState::WitnessBuilt { bytecode, witness }, ProveEvent::ProofProduced(proof)) => {
                if proof.len() > 0 {
                    ProveFlow { state: ProveState::Proved { proof } }
                } else {
                    ProveFlow { state: ProveState::Failed { error: ProofError::Backend } }
                }
            },
            (ProveState::WitnessBuilt { .. }, ProveEvent::ProverFailed) => {
                ProveFlow { state: ProveState::Failed { error: ProofError::Backend } }
            },
            (state, _) => ProveFlow { state },
        }
    }

    /// The result of the flow: the proof where it has proved, the error where
    /// it has failed, and nothing while it has not ended.
    pub fn outcome(self) -> (r: Option<Result<Vec<u8>, ProofError>>)
        ensures
            match r {
                Some(Ok(proof)) => prove_outcome(self@) == Some(
                    Ok::<Seq<u8>, ProofError>(proof@),
                ) && proof@.len() > 0,
                Some(Err(e)) => prove_outcome(self@) == Some(Err::<Seq<u8>, ProofError>(e)),
                None => prove_outcome(self@) is None,
            },
    {
        proof {
            use_type_invariant(&self);
        }
        match self.state {
            ProveState::Proved { proof } => Some(Ok(proof)),
            ProveState::Failed { error } => Some(Err(error)),
            _ => None,
        }
    }
}

} // verus!
