//! The two manifest document shapes, as plain structured values.
//!
//! A document arrives here already decoded from its on-disk format by the
//! surrounding service; nothing in it has been validated yet. The loaders in
//! `secrets` and `config` turn these raw documents into checked values.

use vstd::prelude::*;

verus! {

/// One `name`/`value` pair declared by a secret manifest.
#[derive(Debug)]
pub struct SecretEntry {
    pub name: String,
    pub value: String,
}

/// A decoded secret manifest document, structure only, not yet validated.
///
/// `kind` must equal `"secret"` for the document to be accepted.
#[derive(Debug)]
pub struct SecretDoc {
    pub kind: String,
    pub name: String,
    pub secrets: Vec<SecretEntry>,
}

/// One named pipeline step: an ordered list of shell command strings.
#[derive(Debug)]
pub struct StepDoc {
    pub name: String,
    pub commands: Vec<String>,
}

/// The optional failure hook: commands run best-effort after the first
/// failing step.
#[derive(Debug)]
pub struct FailureDoc {
    pub commands: Vec<String>,
}

/// A decoded pipeline manifest document, structure only, not yet validated.
///
/// `kind` must equal `"pipeline"` for the document to be accepted.
#[derive(Debug)]
pub struct PipelineDoc {
    pub kind: String,
    pub name: String,
    pub webhook_token: Option<String>,
    pub steps: Vec<StepDoc>,
    pub on_failure: Option<FailureDoc>,
}

} // verus!
