//! The kinds of failure of a prove or verify call.

use crate::artifact::ArtifactError;
use crate::witness::EncodingError;
use vstd::prelude::*;

verus! {

/// Why a prove or verify call failed. Each kind names the step that failed.
#[derive(Clone, Copy, Debug, PartialEq, Eq, Structural)]
pub enum ProofError {
    /// The circuit artifact gave no bytecode.
    Artifact(ArtifactError),
    /// No usable reference string could be ensured, or no verification key
    /// could be derived from it.
    Srs,
    /// The inputs were not encoded into a witness.
    Encoding(EncodingError),
    /// The proving or verifying backend could not be run to its end. This is
    /// not the verdict that a proof is invalid.
    Backend,
}

} // verus!
