//! Pipeline manifest configuration: the narrow accessor that resolves which
//! secret name backs a pipeline's webhook token.

use vstd::prelude::*;

use crate::manifest::PipelineDoc;

verus! {

/// Why reading a pipeline's configuration failed.
///
/// `Io` and `Yaml` carry the message of a failed read or decode of the
/// document; they are produced by the service around this library, never by
/// the verified accessor itself.
#[derive(Debug, PartialEq, Eq)]
pub enum PipelineConfigError {
    Io(String),
    Yaml(String),
    InvalidKind(String),
}

/// Exactly which error the accessor yields: only a wrong `kind` tag,
/// reported as `InvalidKind` carrying the offending tag.
pub open spec fn config_error(doc: PipelineDoc, e: PipelineConfigError) -> bool {
    e matches PipelineConfigError::InvalidKind(k) && doc.kind@ != "pipeline"@ && k@ == doc.kind@
}

/// An optional string as an optional character sequence.
pub open spec fn opt_str_view(o: Option<String>) -> Option<Seq<char>> {
    match o {
        Some(s) => Some(s@),
        None => None,
    }
}

/// The full contract of [`load_webhook_token_name`].
pub open spec fn load_webhook_token_name_post(
    doc: PipelineDoc,
    r: Result<Option<String>, PipelineConfigError>,
) -> bool {
    match r {
        Ok(t) => doc.kind@ == "pipeline"@ && opt_str_view(t) == opt_str_view(doc.webhook_token),
        Err(e) => config_error(doc, e),
    }
}

/// Which secret name backs the webhook token of this pipeline, if the
/// manifest declares one. Validates the `kind` tag and nothing else.
pub fn load_webhook_token_name(doc: &PipelineDoc) -> (r: Result<Option<String>, PipelineConfigError>)
    ensures
        load_webhook_token_name_post(*doc, r),
{
    if !(doc.kind == "pipeline".to_owned()) {
        return Err(PipelineConfigError::InvalidKind(doc.kind.clone()));
    }
    match &doc.webhook_token {
        Some(t) => Ok(Some(t.clone())),
        None => Ok(None),
    }
}

/// Law: a pipeline document whose `kind` tag is not `"pipeline"` is rejected
/// by the token-name accessor with `InvalidKind` carrying the offending tag.
pub proof fn lemma_token_name_rejects_wrong_kind(
    doc: PipelineDoc,
    r: Result<Option<String>, PipelineConfigError>,
)
    requires
        load_webhook_token_name_post(doc, r),
        doc.kind@ != "pipeline"@,
    ensures
        r matches Err(PipelineConfigError::InvalidKind(k)) && k@ == doc.kind@,
{
}

} // verus!
