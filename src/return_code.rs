//! Status codes of the native engine and the diagnostic record that goes with
//! a failed call.
use vstd::prelude::*;

verus! {

/// The outcome of a call into the native engine.
#[derive(Debug, Clone, Copy, PartialEq, Eq, Structural)]
pub enum SolClientReturnCode {
    Success,
    WouldBlock,
    InProgress,
    NotReady,
    EndOfStream,
    NotFound,
    NoEvent,
    Incomplete,
    Rollback,
    Fail,
}

/// The code that a raw status stands for; every value the engine does not
/// define is a failure.
pub open spec fn return_code_of(value: int) -> SolClientReturnCode {
    if value == 0 {
        SolClientReturnCode::Success
    } else if value == 1 {
        SolClientReturnCode::WouldBlock
    } else if value == 2 {
        SolClientReturnCode::InProgress
    } else if value == 3 {
        SolClientReturnCode::NotReady
    } else if value == 4 {
        SolClientReturnCode::EndOfStream
    } else if value == 5 {
        SolClientReturnCode::NotFound
    } else if value == 6 {
        SolClientReturnCode::NoEvent
    } else if value == 7 {
        SolClientReturnCode::Incomplete
    } else if value == 8 {
        SolClientReturnCode::Rollback
    } else {
        SolClientReturnCode::Fail
    }
}

/// The raw status that the engine uses for a code.
pub open spec fn raw_of(code: SolClientReturnCode) -> int {
    match code {
        SolClientReturnCode::Success => 0,
        SolClientReturnCode::WouldBlock => 1,
        SolClientReturnCode::InProgress => 2,
        SolClientReturnCode::NotReady => 3,
        SolClientReturnCode::EndOfStream => 4,
        SolClientReturnCode::NotFound => 5,
        SolClientReturnCode::NoEvent => 6,
        SolClientReturnCode::Incomplete => 7,
        SolClientReturnCode::Rollback => 8,
        SolClientReturnCode::Fail => -1,
    }
}

/// The human-readable meaning of a code.
pub open spec fn return_code_text(code: SolClientReturnCode) -> Seq<char> {
    match code {
        SolClientReturnCode::Success => "Ok - The API call was successful."@,
        SolClientReturnCode::WouldBlock =>
            "WouldBlock - The API call would block, but non-blocking was requested."@,
        SolClientReturnCode::InProgress =>
            "InProgress - An API call is in progress (non-blocking mode)."@,
        SolClientReturnCode::NotReady =>
            "NotReady - The API could not complete as an object is not ready (for example, the Session is not connected)."@,
        SolClientReturnCode::EndOfStream =>
            "EndOfStream - A getNext on a structured container returned End-of-Stream."@,
        SolClientReturnCode::NotFound =>
            "NotFound - A get for a named field in a MAP was not found in the MAP."@,
        SolClientReturnCode::NoEvent =>
            "NoEvent - solClient_context_processEventsWait returns this if wait is zero and there is no event to process"@,
        SolClientReturnCode::Incomplete =>
            "Incomplete - The API call completed some, but not all, of the requested function."@,
        SolClientReturnCode::Rollback =>
            "Rollback - solClient_transactedSession_commit returns this when the transaction has been rolled back."@,
        SolClientReturnCode::Fail => "Fail - The API call failed."@,
    }
}

impl SolClientReturnCode {
    /// Maps a raw status of the engine to its code; an unknown status is `Fail`.
    pub fn from_raw(value: i32) -> (r: Self)
        ensures
            r == return_code_of(value as int),
    {
        if value == 0 {
            SolClientReturnCode::Success
        } else if value == 1 {
            SolClientReturnCode::WouldBlock
        } else if value == 2 {
            SolClientReturnCode::InProgress
        } else if value == 3 {
            SolClientReturnCode::NotReady
        } else if value == 4 {
            SolClientReturnCode::EndOfStream
        } else if value == 5 {
            SolClientReturnCode::NotFound
        } else if value == 6 {
            SolClientReturnCode::NoEvent
        } else if value == 7 {
            SolClientReturnCode::Incomplete
        } else if value == 8 {
            SolClientReturnCode::Rollback
        } else {
            SolClientReturnCode::Fail
        }
    }

    /// The raw status that stands for this code.
    pub fn to_raw(&self) -> (r: i32)
        ensures
            r as int == raw_of(*self),
    {
        match self {
            SolClientReturnCode::Success => 0,
            SolClientReturnCode::WouldBlock => 1,
            SolClientReturnCode::InProgress => 2,
            SolClientReturnCode::NotReady => 3,
            SolClientReturnCode::EndOfStream => 4,
            SolClientReturnCode::NotFound => 5,
            SolClientReturnCode::NoEvent => 6,
            SolClientReturnCode::Incomplete => 7,
            SolClientReturnCode::Rollback => 8,
            SolClientReturnCode::Fail => -1,
        }
    }

    /// Whether the call succeeded.
    pub fn is_ok(&self) -> (r: bool)
        ensures
            r == (*self == SolClientReturnCode::Success),
    {
        match self {
            SolClientReturnCode::Success => true,
            _ => false,
        }
    }

    /// The human-readable meaning of the code.
    pub fn description(&self) -> (r: &'static str)
        ensures
            r@ == return_code_text(*self),
    {
        match self {
            SolClientReturnCode::Success => "Ok - The API call was successful.",
            SolClientReturnCode::WouldBlock =>
                "WouldBlock - The API call would block, but non-blocking was requested.",
            SolClientReturnCode::InProgress =>
                "InProgress - An API call is in progress (non-blocking mode).",
            SolClientReturnCode::NotReady =>
                "NotReady - The API could not complete as an object is not ready (for example, the Session is not connected).",
            SolClientReturnCode::EndOfStream =>
                "EndOfStream - A getNext on a structured container returned End-of-Stream.",
            SolClientReturnCode::NotFound =>
                "NotFound - A get for a named field in a MAP was not found in the MAP.",
            SolClientReturnCode::NoEvent =>
                "NoEvent - solClient_context_processEventsWait returns this if wait is zero and there is no event to process",
            SolClientReturnCode::Incomplete =>
                "Incomplete - The API call completed some, but not all, of the requested function.",
            SolClientReturnCode::Rollback =>
                "Rollback - solClient_transactedSession_commit returns this when the transaction has been rolled back.",
            SolClientReturnCode::Fail => "Fail - The API call failed.",
        }
    }
}

/// Every code survives the trip to its raw status and back.
pub proof fn lemma_return_code_round_trip(code: SolClientReturnCode)
    ensures
        return_code_of(raw_of(code)) == code,
{
}

/// A raw status outside the engine's table never reads as success.
pub proof fn lemma_unknown_status_fails(value: int)
    requires
        !(0 <= value <= 8),
    ensures
        return_code_of(value) == SolClientReturnCode::Fail,
{
}

/// The engine's diagnostic record for the most recent failed call of a thread:
/// a numeric subcode and its text.
#[derive(Debug, Clone, PartialEq, Eq)]
pub struct SolClientSubCode {
    pub subcode: u32,
    pub error_string: String,
}

/// Verbosity of the engine's own log.
#[derive(Debug, Clone, Copy, PartialEq, Eq, Structural)]
pub enum SolaceLogLevel {
    Critical,
    Error,
    Warning,
    Notice,
    Info,
    Debug,
}

/// The engine's number for a log level.
pub open spec fn log_level_raw(level: SolaceLogLevel) -> int {
    match level {
        SolaceLogLevel::Critical => 2,
        SolaceLogLevel::Error => 3,
        SolaceLogLevel::Warning => 4,
        SolaceLogLevel::Notice => 5,
        SolaceLogLevel::Info => 6,
        SolaceLogLevel::Debug => 7,
    }
}

impl SolaceLogLevel {
    /// The engine's number for this level.
    pub fn to_u32(&self) -> (r: u32)
        ensures
            r as int == log_level_raw(*self),
    {
        match self {
            SolaceLogLevel::Critical => 2,
            SolaceLogLevel::Error => 3,
            SolaceLogLevel::Warning => 4,
            SolaceLogLevel::Notice => 5,
            SolaceLogLevel::Info => 6,
            SolaceLogLevel::Debug => 7,
        }
    }

    /// The level with the engine's number `value`, if there is one.
    pub fn from_u32(value: u32) -> (r: Option<Self>)
        ensures
            r matches Some(l) ==> log_level_raw(l) == value as int,
            r is None <==> !(2 <= value <= 7),
    {
        if value == 2 {
            Some(SolaceLogLevel::Critical)
        } else if value == 3 {
            Some(SolaceLogLevel::Error)
        } else if value == 4 {
            Some(SolaceLogLevel::Warning)
        } else if value == 5 {
            Some(SolaceLogLevel::Notice)
        } else if value == 6 {
            Some(SolaceLogLevel::Info)
        } else if value == 7 {
            Some(SolaceLogLevel::Debug)
        } else {
            None
        }
    }
}

} // verus!
