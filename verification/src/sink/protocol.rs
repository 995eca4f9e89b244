//! The messages between the pipeline and the sink, and the sink's answers.
use vstd::prelude::*;

use crate::sink::config::{is_default_config, Config};
use crate::text::{owned, str_eq};

verus! {

#[verifier::external_type_specification]
#[verifier::external_body]
pub struct ExJsonValue(serde_json::Value);

/// Copies a JSON value.
///
/// Calls `serde_json::Value::clone`; the contract claims the copy is the same value.
#[verifier::external_body]
fn clone_json(v: &serde_json::Value) -> (r: serde_json::Value)
    ensures
        r == *v,
{
    v.clone()
}

/// A request from the pipeline: its id, its method and the method's parameters.
#[derive(Debug)]
pub struct Request {
    pub id: usize,
    pub method: String,
    pub params: serde_json::Value,
}

/// An answer to a request: the request's id, and either a result or an error message.
#[derive(Debug)]
pub struct Response {
    pub id: usize,
    pub result: Option<serde_json::Value>,
    pub error: Option<String>,
}

/// What an answer says: its error where it has one, else its result.
pub open spec fn response_outcome(r: Response) -> Result<serde_json::Value, String> {
    match r.error {
        Some(message) => Err(message),
        None => Ok(r.result->0),
    }
}

/// What an answer with these result and error fields says: the error where there is one,
/// else the result.  There must be one of the two.
pub fn outcome_of(result: &Option<serde_json::Value>, error: &Option<String>) -> (r: Result<
    serde_json::Value,
    String,
>)
    requires
        error is Some || result is Some,
    ensures
        r == (match *error {
            Some(message) => Err(message),
            None => Ok::<serde_json::Value, String>(result->0),
        }),
{
    match error {
        Some(message) => Err(message.clone()),
        None => match result {
            Some(value) => Ok(clone_json(value)),
            None => {
                assert(false);
                Err(String::new())
            },
        },
    }
}

impl Response {
    /// The result of the answer, or its error message.  An answer without an error must
    /// have a result.
    pub fn result(&self) -> (r: Result<serde_json::Value, String>)
        requires
            self.error is Some || self.result is Some,
        ensures
            r == response_outcome(*self),
    {
        outcome_of(&self.result, &self.error)
    }
}

/// The answer to request `id` that carries `outcome`.
pub open spec fn response_for(id: usize, outcome: Result<serde_json::Value, String>) -> Response {
    match outcome {
        Ok(v) => Response { id, result: Some(v), error: None },
        Err(m) => Response { id, result: None, error: Some(m) },
    }
}

/// The answer to request `id` with the outcome of handling it.
pub fn make_response(id: usize, outcome: Result<serde_json::Value, String>) -> (r: Response)
    ensures
        r == response_for(id, outcome),
{
    match outcome {
        Ok(v) => Response { id, result: Some(v), error: None },
        Err(m) => Response { id, result: None, error: Some(m) },
    }
}

/// Reading an answer gives back the outcome it was made from, and an answer made this way
/// can always be read.
pub proof fn law_response_round_trip(id: usize, outcome: Result<serde_json::Value, String>)
    ensures
        response_for(id, outcome).error is Some || response_for(id, outcome).result is Some,
        response_outcome(response_for(id, outcome)) == outcome,
        response_for(id, outcome).id == id,
{
}

/// The method that starts the sink.
pub const INITIALIZE_METHOD: &'static str = "initialize/initialize";

/// The method that hands the sink a batch of media.
pub const SINK_METHOD: &'static str = "media/sink";

/// The protocol version the sink speaks.
pub const VERSION: &'static str = "b2a8d343480cbaf075c93fd47033db7a2f020773";

/// The parameters of the initialize request.
#[derive(Debug)]
pub struct InitializeParams {
    pub config: Option<Config>,
}

/// The answer to the initialize request: the methods the sink handles and its version.
#[derive(Debug)]
pub struct InitializeResult {
    pub capabilities: Vec<String>,
    pub version: String,
}

/// The (empty) answer to a sink request.
#[derive(Debug, Clone, Copy)]
pub struct SinkResult {}

/// The methods the sink handles.
#[derive(Debug, Clone, Copy, PartialEq, Eq, Structural)]
pub enum SinkMethod {
    Initialize,
    Sink,
}

/// Why the sink refuses a request.
#[derive(Debug, Clone, Copy, PartialEq, Eq, Structural)]
pub enum SinkError {
    /// The method is not one the sink handles ("unsupported method").
    UnsupportedMethod,
}

impl SinkError {
    /// The message that reports the error.
    pub fn message(&self) -> (r: String)
        ensures
            r@ == "unsupported method"@,
    {
        owned("unsupported method")
    }
}

/// The method a request names.
pub open spec fn method_named(method: Seq<char>) -> Result<SinkMethod, SinkError> {
    if method == INITIALIZE_METHOD@ {
        Ok(SinkMethod::Initialize)
    } else if method == SINK_METHOD@ {
        Ok(SinkMethod::Sink)
    } else {
        Err(SinkError::UnsupportedMethod)
    }
}

/// Tells which handler a request goes to.
pub fn route_method(method: &str) -> (r: Result<SinkMethod, SinkError>)
    ensures
        r == method_named(method@),
{
    if str_eq(method, INITIALIZE_METHOD) {
        Ok(SinkMethod::Initialize)
    } else if str_eq(method, SINK_METHOD) {
        Ok(SinkMethod::Sink)
    } else {
        Err(SinkError::UnsupportedMethod)
    }
}

/// Handles the initialize request: the sink keeps the config it was given (the default one
/// where none was given) and answers with the methods it handles and its version.  The
/// config must not have been set before.
pub fn handle_initialize(config: &mut Option<Config>, params: InitializeParams) -> (r: Result<
    InitializeResult,
    SinkError,
>)
    requires
        *old(config) is None,
    ensures
        match params.config {
            Some(c) => *final(config) == Some(c),
            None => *final(config) matches Some(c) && is_default_config(c),
        },
        r matches Ok(res) && res.capabilities@.len() == 1 && res.capabilities@[0]@ == SINK_METHOD@
            && res.version@ == VERSION@,
{
    let chosen = match params.config {
        Some(c) => c,
        None => Config::default(),
    };
    *config = Some(chosen);
    let mut capabilities: Vec<String> = Vec::new();
    capabilities.push(owned(SINK_METHOD));
    Ok(InitializeResult { capabilities, version: owned(VERSION) })
}

} // verus!
