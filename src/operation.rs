//! The outcome of the engine calls that a session makes: each failing status
//! is paired with the engine's diagnostic record and named after the
//! operation that failed.
use crate::return_code::{return_code_of, SolClientReturnCode, SolClientSubCode};
use crate::text::{is_native_text, native_text};
use vstd::prelude::*;
use vstd::string::*;

verus! {

/// Why a session operation failed. Each engine failure carries the code and
/// the diagnostic record of the call.
#[derive(Debug, Clone)]
pub enum SessionError {
    /// An argument holds a NUL character.
    InvalidArgs(String),
    /// The session or cache session could not be created.
    InitializationFailure(SolClientReturnCode, SolClientSubCode),
    /// The session was created but could not connect.
    ConnectionFailure(SolClientReturnCode, SolClientSubCode),
    /// Subscribing to the named topic failed.
    SubscriptionFailure(String, SolClientReturnCode, SolClientSubCode),
    /// Unsubscribing from the named topic failed.
    UnsubscriptionFailure(String, SolClientReturnCode, SolClientSubCode),
    /// A cache request failed.
    CacheRequestFailure(SolClientReturnCode, SolClientSubCode),
    /// Publishing failed.
    PublishError(SolClientReturnCode, SolClientSubCode),
    /// A request failed or went unanswered in time.
    RequestError(SolClientReturnCode, SolClientSubCode),
    /// Disconnecting failed.
    DisconnectError(SolClientReturnCode, SolClientSubCode),
    /// Provisioning an endpoint failed.
    EndpointProvisionError(SolClientReturnCode, SolClientSubCode),
    /// Removing an endpoint failed.
    EndpointDeprovisionError(SolClientReturnCode, SolClientSubCode),
}

/// An engine call that a session makes on behalf of its user.
#[derive(Debug, Clone)]
pub enum SessionOperation {
    Create,
    Connect,
    Subscribe(String),
    Unsubscribe(String),
    CacheRequest,
    Publish,
    Request,
    Disconnect,
    EndpointProvision,
    EndpointDeprovision,
}

/// The error that reports a failed operation with its code and record.
pub open spec fn operation_error(
    op: SessionOperation,
    code: SolClientReturnCode,
    last_error: SolClientSubCode,
) -> SessionError {
    match op {
        SessionOperation::Create => SessionError::InitializationFailure(code, last_error),
        SessionOperation::Connect => SessionError::ConnectionFailure(code, last_error),
        SessionOperation::Subscribe(topic) => SessionError::SubscriptionFailure(
            topic,
            code,
            last_error,
        ),
        SessionOperation::Unsubscribe(topic) => SessionError::UnsubscriptionFailure(
            topic,
            code,
            last_error,
        ),
        SessionOperation::CacheRequest => SessionError::CacheRequestFailure(code, last_error),
        SessionOperation::Publish => SessionError::PublishError(code, last_error),
        SessionOperation::Request => SessionError::RequestError(code, last_error),
        SessionOperation::Disconnect => SessionError::DisconnectError(code, last_error),
        SessionOperation::EndpointProvision => SessionError::EndpointProvisionError(
            code,
            last_error,
        ),
        SessionOperation::EndpointDeprovision => SessionError::EndpointDeprovisionError(
            code,
            last_error,
        ),
    }
}

/// The outcome of an operation from the engine's raw status: success only on
/// the engine's success code, otherwise the operation's error with the code
/// and `last_error`, the diagnostic record read right after the call.
pub fn operation_outcome(op: SessionOperation, status: i32, last_error: SolClientSubCode) -> (r:
    Result<(), SessionError>)
    ensures
        return_code_of(status as int) == SolClientReturnCode::Success ==> r is Ok,
        return_code_of(status as int) != SolClientReturnCode::Success ==> r == Err::<
            (),
            SessionError,
        >(operation_error(op, return_code_of(status as int), last_error)),
{
    let code = SolClientReturnCode::from_raw(status);
    if code.is_ok() {
        return Ok(());
    }
    match op {
        SessionOperation::Create => Err(SessionError::InitializationFailure(code, last_error)),
        SessionOperation::Connect => Err(SessionError::ConnectionFailure(code, last_error)),
        SessionOperation::Subscribe(topic) => Err(
            SessionError::SubscriptionFailure(topic, code, last_error),
        ),
        SessionOperation::Unsubscribe(topic) => Err(
            SessionError::UnsubscriptionFailure(topic, code, last_error),
        ),
        SessionOperation::CacheRequest => Err(SessionError::CacheRequestFailure(code, last_error)),
        SessionOperation::Publish => Err(SessionError::PublishError(code, last_error)),
        SessionOperation::Request => Err(SessionError::RequestError(code, last_error)),
        SessionOperation::Disconnect => Err(SessionError::DisconnectError(code, last_error)),
        SessionOperation::EndpointProvision => Err(
            SessionError::EndpointProvisionError(code, last_error),
        ),
        SessionOperation::EndpointDeprovision => Err(
            SessionError::EndpointDeprovisionError(code, last_error),
        ),
    }
}

/// Provisioning waits for the broker's confirmation.
pub const PROVISION_WAIT_FOR_CONFIRM: u32 = 0x01;

/// Provisioning counts an endpoint that already exists as success.
pub const PROVISION_IGNORE_EXIST_ERRORS: u32 = 0x02;

/// The flags of an endpoint provisioning or removal: always wait for the
/// broker, and ignore an existing endpoint when asked to.
pub fn provision_flags(ignore_already_exists_error: bool) -> (r: u32)
    ensures
        ignore_already_exists_error ==> r == PROVISION_WAIT_FOR_CONFIRM
            | PROVISION_IGNORE_EXIST_ERRORS,
        !ignore_already_exists_error ==> r == PROVISION_WAIT_FOR_CONFIRM,
{
    if ignore_already_exists_error {
        PROVISION_WAIT_FOR_CONFIRM | PROVISION_IGNORE_EXIST_ERRORS
    } else {
        PROVISION_WAIT_FOR_CONFIRM
    }
}

/// A topic as the engine takes it; one holding a NUL is refused.
pub fn topic_text(topic: &str) -> (r: Result<String, SessionError>)
    ensures
        is_native_text(topic@) ==> (r matches Ok(t) && t@ == topic@),
        !is_native_text(topic@) ==> (r matches Err(SessionError::InvalidArgs(f)) && f@
            == "topic"@),
{
    if native_text(topic) {
        Ok(String::from_str(topic))
    } else {
        Err(SessionError::InvalidArgs(String::from_str("topic")))
    }
}

/// Why the engine's context could not be set up.
#[derive(Debug, Clone, PartialEq, Eq)]
pub enum ContextError {
    /// The engine's initialisation or context creation failed with the code.
    InitializationFailed(SolClientReturnCode),
}

/// The outcome of setting up the engine's context, from its raw status.
pub fn context_init_outcome(status: i32) -> (r: Result<(), ContextError>)
    ensures
        return_code_of(status as int) == SolClientReturnCode::Success ==> r is Ok,
        return_code_of(status as int) != SolClientReturnCode::Success ==> r == Err::<
            (),
            ContextError,
        >(ContextError::InitializationFailed(return_code_of(status as int))),
{
    let code = SolClientReturnCode::from_raw(status);
    if code.is_ok() {
        Ok(())
    } else {
        Err(ContextError::InitializationFailed(code))
    }
}

/// A cache request answers from the cache and lets live data flow through.
pub const CACHE_REQUEST_LIVEDATA_FLOWTHRU: u32 = 0x08;

/// A cache request does not add a subscription for its topic.
pub const CACHE_REQUEST_NO_SUBSCRIBE: u32 = 0x01;

/// The flags of a cache request: live data always flows through; the topic is
/// subscribed to only when `subscribe` is set.
pub fn cache_request_flags(subscribe: bool) -> (r: u32)
    ensures
        subscribe ==> r == CACHE_REQUEST_LIVEDATA_FLOWTHRU,
        !subscribe ==> r == CACHE_REQUEST_LIVEDATA_FLOWTHRU | CACHE_REQUEST_NO_SUBSCRIBE,
{
    if subscribe {
        CACHE_REQUEST_LIVEDATA_FLOWTHRU
    } else {
        CACHE_REQUEST_LIVEDATA_FLOWTHRU | CACHE_REQUEST_NO_SUBSCRIBE
    }
}

} // verus!
