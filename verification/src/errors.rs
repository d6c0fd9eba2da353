//! The error taxonomy of the proving pipeline.

use vstd::prelude::*;

verus! {

/// Errors that can occur during zkML operations.
///
/// `Verification` is reserved for a verification run that could not be
/// carried out at all; a proof that is well-formed but cryptographically
/// rejected is reported as `Ok(false)` by `verify`, never as this error.
#[derive(Debug)]
pub enum ZKMLError {
    /// The model file is missing fields, malformed, or of an unsupported version.
    ModelLoad(String),
    /// The bytecode violates the circuit shape assumptions.
    Preprocessing(String),
    /// The witness has the wrong length, or a request payload breaks the schema.
    InvalidInput(String),
    /// `prove` was called before `preprocess`.
    NotPreprocessed,
    /// The trace handed to the prover is inconsistent with the preprocessing.
    Proving(String),
    /// The proof, verifying key or output bytes could not be decoded.
    Deserialization(String),
    /// The verification procedure itself could not be performed.
    Verification(String),
}

impl ZKMLError {
    /// A human-readable description of the error.
    pub fn message(&self) -> (r: String)
        ensures
            r@.len() > 0,
    {
        let r = match self {
            ZKMLError::ModelLoad(_) => "model load failed",
            ZKMLError::Preprocessing(_) => "preprocessing failed",
            ZKMLError::InvalidInput(_) => "invalid input",
            ZKMLError::NotPreprocessed => "model not preprocessed",
            ZKMLError::Proving(_) => "proving failed",
            ZKMLError::Deserialization(_) => "deserialization failed",
            ZKMLError::Verification(_) => "verification could not be performed",
        };
        proof {
            reveal_strlit("model load failed");
            reveal_strlit("preprocessing failed");
            reveal_strlit("invalid input");
            reveal_strlit("model not preprocessed");
            reveal_strlit("proving failed");
            reveal_strlit("deserialization failed");
            reveal_strlit("verification could not be performed");
        }
        r.to_owned()
    }

    /// The detail string attached to the error, if any.
    pub fn detail(&self) -> (r: Option<&String>)
        ensures
            match self {
                ZKMLError::NotPreprocessed => r is None,
                ZKMLError::ModelLoad(s) => r == Some(s),
                ZKMLError::Preprocessing(s) => r == Some(s),
                ZKMLError::InvalidInput(s) => r == Some(s),
                ZKMLError::Proving(s) => r == Some(s),
                ZKMLError::Deserialization(s) => r == Some(s),
                ZKMLError::Verification(s) => r == Some(s),
            },
    {
        match self {
            ZKMLError::ModelLoad(s) => Some(s),
            ZKMLError::Preprocessing(s) => Some(s),
            ZKMLError::InvalidInput(s) => Some(s),
            ZKMLError::NotPreprocessed => None,
            ZKMLError::Proving(s) => Some(s),
            ZKMLError::Deserialization(s) => Some(s),
            ZKMLError::Verification(s) => Some(s),
        }
    }
}

} // verus!
