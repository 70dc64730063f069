//! The webhook authentication and dispatch gate.
//!
//! Authentication runs strictly before event classification, so an
//! unauthenticated caller can never probe which event kinds are supported.
//! The expected token is resolved from the pipeline manifest's
//! `webhook_token` reference and the secret manifest (the manifest-backed
//! strategy); comparison with the inbound header is exact.

use vstd::prelude::*;

use crate::config::{config_error, load_webhook_token_name, PipelineConfigError};
use crate::manifest::{PipelineDoc, SecretDoc};
use crate::secrets::{
    entry_pairs, load_secret_map, lookup, secret_doc_valid, secret_load_error, SecretLoadError,
};

verus! {

/// The webhook payload is an opaque structured document, passed through to
/// the trigger unexamined; the library never looks inside it.
#[verifier::external_type_specification]
#[verifier::external_body]
pub struct ExValue(serde_json::Value);

/// The supported GitLab event kinds.
#[derive(Debug, Clone, Copy, PartialEq, Eq, Structural)]
pub enum GitLabEvent {
    Push,
    MergeRequest,
}

/// One inbound header: absent, unreadable as text, or its text value.
#[derive(Debug, PartialEq, Eq)]
pub enum HeaderField {
    Missing,
    NotText,
    Text(String),
}

/// The pair of inbound headers that authentication and classification use.
#[derive(Debug, PartialEq, Eq)]
pub struct WebhookHeaders {
    pub event: HeaderField,
    pub token: HeaderField,
}

/// Why a webhook request was rejected.
#[derive(Debug, PartialEq, Eq)]
pub enum GitLabWebhookError {
    MissingEventHeader,
    InvalidEventHeader,
    UnsupportedEvent(String),
    MissingTokenHeader,
    InvalidTokenHeader,
    InvalidToken,
    MissingWebhookTokenName,
    MissingWebhookTokenValue(String),
    PipelineConfig(PipelineConfigError),
    Secrets(SecretLoadError),
}

/// A validated, authenticated webhook, ready to trigger its pipeline.
/// Constructed only after authentication and classification both succeed.
#[derive(Debug)]
pub struct GitLabWebhookRequest {
    pub pipeline: String,
    pub event: GitLabEvent,
    pub payload: serde_json::Value,
}

/// How the event header classifies: an exact-match closed map, no default.
pub open spec fn classify_event(h: HeaderField) -> Result<GitLabEvent, GitLabWebhookError> {
    match h {
        HeaderField::Missing => Err(GitLabWebhookError::MissingEventHeader),
        HeaderField::NotText => Err(GitLabWebhookError::InvalidEventHeader),
        HeaderField::Text(v) => if v@ == "Push Hook"@ {
            Ok(GitLabEvent::Push)
        } else if v@ == "Merge Request Hook"@ {
            Ok(GitLabEvent::MergeRequest)
        } else {
            Err(GitLabWebhookError::UnsupportedEvent(v))
        },
    }
}

/// How the token header checks against the expected token: exact equality.
pub open spec fn check_token(h: HeaderField, expected: Seq<char>) -> Result<(), GitLabWebhookError> {
    match h {
        HeaderField::Missing => Err(GitLabWebhookError::MissingTokenHeader),
        HeaderField::NotText => Err(GitLabWebhookError::InvalidTokenHeader),
        HeaderField::Text(v) => if v@ == expected {
            Ok(())
        } else {
            Err(GitLabWebhookError::InvalidToken)
        },
    }
}

/// The secret name that backs the webhook token, when the pipeline document
/// is present, well-tagged, and declares one.
pub open spec fn token_name_of(
    pipeline_doc: Result<PipelineDoc, PipelineConfigError>,
) -> Option<Seq<char>> {
    match pipeline_doc {
        Ok(pd) => if pd.kind@ == "pipeline"@ {
            match pd.webhook_token {
                Some(tn) => Some(tn@),
                None => None,
            }
        } else {
            None
        },
        Err(_) => None,
    }
}

/// The expected token value, when the manifest-backed resolution fully
/// succeeds: token name declared, secret manifest valid, name present in it.
pub open spec fn resolved_token(
    pipeline_doc: Result<PipelineDoc, PipelineConfigError>,
    secrets_doc: Result<SecretDoc, SecretLoadError>,
) -> Option<Seq<char>> {
    match token_name_of(pipeline_doc) {
        Some(tn) => match secrets_doc {
            Ok(sd) => if secret_doc_valid(sd) {
                lookup(entry_pairs(sd.secrets@), tn)
            } else {
                None
            },
            Err(_) => None,
        },
        None => None,
    }
}

/// Authentication succeeds: a token was resolved and the inbound token
/// header equals it exactly.
pub open spec fn auth_ok(
    headers: WebhookHeaders,
    pipeline_doc: Result<PipelineDoc, PipelineConfigError>,
    secrets_doc: Result<SecretDoc, SecretLoadError>,
) -> bool {
    match resolved_token(pipeline_doc, secrets_doc) {
        Some(expected) => headers.token matches HeaderField::Text(v) && v@ == expected,
        None => false,
    }
}

/// The full contract of [`handle_webhook`]: exactly which request or error
/// comes back, stage by stage in evaluation order.
pub open spec fn handle_webhook_post(
    headers: WebhookHeaders,
    pipeline: Seq<char>,
    payload: serde_json::Value,
    pipeline_doc: Result<PipelineDoc, PipelineConfigError>,
    secrets_doc: Result<SecretDoc, SecretLoadError>,
    r: Result<GitLabWebhookRequest, GitLabWebhookError>,
) -> bool {
    match r {
        Ok(req) => auth_ok(headers, pipeline_doc, secrets_doc)
            && classify_event(headers.event) == Ok::<GitLabEvent, GitLabWebhookError>(req.event)
            && req.pipeline@ == pipeline && req.payload == payload,
        Err(e) => match e {
            GitLabWebhookError::PipelineConfig(ce) => (pipeline_doc matches Err(pe) && ce == pe)
                || (pipeline_doc matches Ok(pd) && config_error(pd, ce)),
            GitLabWebhookError::MissingWebhookTokenName => pipeline_doc matches Ok(pd)
                && pd.kind@ == "pipeline"@ && pd.webhook_token is None,
            GitLabWebhookError::Secrets(se) => token_name_of(pipeline_doc) is Some
                && ((secrets_doc matches Err(e0) && se == e0)
                    || (secrets_doc matches Ok(sd) && secret_load_error(sd, se))),
            GitLabWebhookError::MissingWebhookTokenValue(n) => token_name_of(pipeline_doc)
                matches Some(tn) && (n@ == tn && (secrets_doc matches Ok(sd)
                && (secret_doc_valid(sd) && lookup(entry_pairs(sd.secrets@), tn) is None))),
            GitLabWebhookError::MissingTokenHeader => resolved_token(pipeline_doc, secrets_doc)
                is Some && headers.token is Missing,
            GitLabWebhookError::InvalidTokenHeader => resolved_token(pipeline_doc, secrets_doc)
                is Some && headers.token is NotText,
            GitLabWebhookError::InvalidToken => resolved_token(pipeline_doc, secrets_doc)
                matches Some(expected) && headers.token matches HeaderField::Text(v)
                && v@ != expected,
            GitLabWebhookError::MissingEventHeader => auth_ok(headers, pipeline_doc, secrets_doc)
                && headers.event is Missing,
            GitLabWebhookError::InvalidEventHeader => auth_ok(headers, pipeline_doc, secrets_doc)
                && headers.event is NotText,
            GitLabWebhookError::UnsupportedEvent(u) => headers.event matches HeaderField::Text(v)
                && (auth_ok(headers, pipeline_doc, secrets_doc) && u@ == v@
                && v@ != "Push Hook"@ && v@ != "Merge Request Hook"@),
        },
    }
}

/// Classify the inbound event header against the closed set of supported
/// event kinds. Never guesses a default: anything unrecognised is an error.
pub fn event_from_headers(headers: &WebhookHeaders) -> (r: Result<GitLabEvent, GitLabWebhookError>)
    ensures
        r == classify_event(headers.event),
{
    match &headers.event {
        HeaderField::Missing => Err(GitLabWebhookError::MissingEventHeader),
        HeaderField::NotText => Err(GitLabWebhookError::InvalidEventHeader),
        HeaderField::Text(v) => if *v == "Push Hook".to_owned() {
            Ok(GitLabEvent::Push)
        } else if *v == "Merge Request Hook".to_owned() {
            Ok(GitLabEvent::MergeRequest)
        } else {
            Err(GitLabWebhookError::UnsupportedEvent(v.clone()))
        },
    }
}

/// Compare the inbound token header against the expected token, byte for
/// byte. Reports absence, unreadability and mismatch distinctly.
pub fn validate_token(headers: &WebhookHeaders, expected_token: &str) -> (r: Result<
    (),
    GitLabWebhookError,
>)
    ensures
        r == check_token(headers.token, expected_token@),
{
    match &headers.token {
        HeaderField::Missing => Err(GitLabWebhookError::MissingTokenHeader),
        HeaderField::NotText => Err(GitLabWebhookError::InvalidTokenHeader),
        HeaderField::Text(v) => if *v == expected_token.to_owned() {
            Ok(())
        } else {
            Err(GitLabWebhookError::InvalidToken)
        },
    }
}

/// Authenticate and classify one inbound webhook.
///
/// `pipeline_doc` and `secrets_doc` are the decoded manifest documents (or
/// the read/decode error the service met in their place). Authentication —
/// resolving the expected token and checking the token header — runs first
/// and short-circuits; only then is the event header classified; only then is
/// the immutable trigger request built.
pub fn handle_webhook(
    headers: &WebhookHeaders,
    pipeline: &str,
    payload: serde_json::Value,
    pipeline_doc: Result<PipelineDoc, PipelineConfigError>,
    secrets_doc: Result<SecretDoc, SecretLoadError>,
) -> (r: Result<GitLabWebhookRequest, GitLabWebhookError>)
    ensures
        handle_webhook_post(*headers, pipeline@, payload, pipeline_doc, secrets_doc, r),
{
    let pd = match pipeline_doc {
        Ok(d) => d,
        Err(e) => return Err(GitLabWebhookError::PipelineConfig(e)),
    };
    let token_name = match load_webhook_token_name(&pd) {
        Ok(Some(t)) => t,
        Ok(None) => return Err(GitLabWebhookError::MissingWebhookTokenName),
        Err(e) => return Err(GitLabWebhookError::PipelineConfig(e)),
    };
    let sd = match secrets_doc {
        Ok(d) => d,
        Err(e) => return Err(GitLabWebhookError::Secrets(e)),
    };
    let secrets = match load_secret_map(&sd) {
        Ok(m) => m,
        Err(e) => return Err(GitLabWebhookError::Secrets(e)),
    };
    let expected = match secrets.get(token_name.as_str()) {
        Some(v) => v,
        None => return Err(GitLabWebhookError::MissingWebhookTokenValue(token_name)),
    };
    match validate_token(headers, expected.as_str()) {
        Ok(_) => {},
        Err(e) => return Err(e),
    }
    let event = match event_from_headers(headers) {
        Ok(ev) => ev,
        Err(e) => return Err(e),
    };
    Ok(GitLabWebhookRequest { pipeline: pipeline.to_owned(), event, payload })
}

/// The outbound status class an error maps to; the HTTP layer turns it into
/// a concrete response status.
#[derive(Debug, Clone, Copy, PartialEq, Eq, Structural)]
pub enum StatusClass {
    BadRequest,
    Unprocessable,
    Unauthorized,
    InternalError,
}

/// Exactly which status class each error belongs to: header problems are
/// bad requests, unknown events unprocessable, every authentication failure
/// one opaque unauthorized class, document errors internal.
pub open spec fn status_spec(e: GitLabWebhookError) -> StatusClass {
    match e {
        GitLabWebhookError::MissingEventHeader => StatusClass::BadRequest,
        GitLabWebhookError::InvalidEventHeader => StatusClass::BadRequest,
        GitLabWebhookError::UnsupportedEvent(_) => StatusClass::Unprocessable,
        GitLabWebhookError::MissingTokenHeader => StatusClass::Unauthorized,
        GitLabWebhookError::InvalidTokenHeader => StatusClass::Unauthorized,
        GitLabWebhookError::InvalidToken => StatusClass::Unauthorized,
        GitLabWebhookError::MissingWebhookTokenName => StatusClass::Unauthorized,
        GitLabWebhookError::MissingWebhookTokenValue(_) => StatusClass::Unauthorized,
        GitLabWebhookError::PipelineConfig(_) => StatusClass::InternalError,
        GitLabWebhookError::Secrets(_) => StatusClass::InternalError,
    }
}

/// Map a webhook error to its outbound status class.
pub fn status_from_error(error: &GitLabWebhookError) -> (r: StatusClass)
    ensures
        r == status_spec(*error),
{
    match error {
        GitLabWebhookError::MissingEventHeader => StatusClass::BadRequest,
        GitLabWebhookError::InvalidEventHeader => StatusClass::BadRequest,
        GitLabWebhookError::UnsupportedEvent(_) => StatusClass::Unprocessable,
        GitLabWebhookError::MissingTokenHeader => StatusClass::Unauthorized,
        GitLabWebhookError::InvalidTokenHeader => StatusClass::Unauthorized,
        GitLabWebhookError::InvalidToken => StatusClass::Unauthorized,
        GitLabWebhookError::MissingWebhookTokenName => StatusClass::Unauthorized,
        GitLabWebhookError::MissingWebhookTokenValue(_) => StatusClass::Unauthorized,
        GitLabWebhookError::PipelineConfig(_) => StatusClass::InternalError,
        GitLabWebhookError::Secrets(_) => StatusClass::InternalError,
    }
}

impl StatusClass {
    /// The conventional HTTP status code of this class.
    pub fn code(&self) -> (c: u16)
        ensures
            c == match *self {
                StatusClass::BadRequest => 400u16,
                StatusClass::Unprocessable => 422u16,
                StatusClass::Unauthorized => 401u16,
                StatusClass::InternalError => 500u16,
            },
    {
        match self {
            StatusClass::BadRequest => 400,
            StatusClass::Unprocessable => 422,
            StatusClass::Unauthorized => 401,
            StatusClass::InternalError => 500,
        }
    }
}

/// Law: authentication is evaluated before event classification. A request
/// that does not authenticate is rejected, and never with a classification
/// error — whatever its event header holds, it learns nothing about which
/// event kinds are supported.
pub proof fn lemma_auth_before_classification(
    headers: WebhookHeaders,
    pipeline: Seq<char>,
    payload: serde_json::Value,
    pipeline_doc: Result<PipelineDoc, PipelineConfigError>,
    secrets_doc: Result<SecretDoc, SecretLoadError>,
    r: Result<GitLabWebhookRequest, GitLabWebhookError>,
)
    requires
        handle_webhook_post(headers, pipeline, payload, pipeline_doc, secrets_doc, r),
        !auth_ok(headers, pipeline_doc, secrets_doc),
    ensures
        r matches Err(e) && status_spec(e) != StatusClass::BadRequest && status_spec(e)
            != StatusClass::Unprocessable,
{
}

/// Law: accepted are exactly the requests that authenticate and whose event
/// kind is supported.
pub proof fn lemma_accept_iff_authenticated_and_supported(
    headers: WebhookHeaders,
    pipeline: Seq<char>,
    payload: serde_json::Value,
    pipeline_doc: Result<PipelineDoc, PipelineConfigError>,
    secrets_doc: Result<SecretDoc, SecretLoadError>,
    r: Result<GitLabWebhookRequest, GitLabWebhookError>,
)
    requires
        handle_webhook_post(headers, pipeline, payload, pipeline_doc, secrets_doc, r),
    ensures
        r is Ok <==> auth_ok(headers, pipeline_doc, secrets_doc) && classify_event(headers.event)
            is Ok,
{
}

} // verus!
