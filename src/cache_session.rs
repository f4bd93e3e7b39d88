//! Configuration of a cache session, which queries the broker's cache of
//! past messages on top of a connected session.
use crate::operation::SessionError;
use crate::text::{decimal, is_native_text, native_text, push_entry, decimal_u64};
use vstd::prelude::*;
use vstd::string::*;

verus! {

/// How many messages a cache request returns per topic when not told.
pub const DEFAULT_MAX_MESSAGES: u64 = 1;

/// The largest age of a cached message, in seconds, when not told; 0 means
/// any age.
pub const DEFAULT_MAX_AGE: u64 = 0;

/// How long a cache request may take, in milliseconds, when not told.
pub const DEFAULT_TIMEOUT_MS: u64 = 10000;

/// The settings of a cache session.
#[derive(Debug, Clone, PartialEq, Eq)]
pub struct CacheSessionPropsView {
    pub cache_name: String,
    pub max_message: u64,
    pub max_age: u64,
    pub timeout_ms: u64,
}

/// Validated settings of a cache session.
#[derive(Debug, Clone, PartialEq, Eq)]
pub struct CacheSessionProps {
    props: CacheSessionPropsView,
}

impl View for CacheSessionProps {
    type V = CacheSessionPropsView;

    closed spec fn view(&self) -> CacheSessionPropsView {
        self.props
    }
}

/// The value given, or the default.
pub open spec fn or_default(v: Option<u64>, default: u64) -> u64 {
    match v {
        Some(x) => x,
        None => default,
    }
}

/// The property table of a cache session: name, message count, age and
/// timeout, keys and values in turn.
pub open spec fn cache_session_table(p: CacheSessionPropsView) -> Seq<Seq<char>> {
    seq![
        "CACHESESSION_CACHE_NAME"@,
        p.cache_name@,
        "CACHESESSION_DEFAULT_MAX_MSGS"@,
        decimal(p.max_message as nat),
        "CACHESESSION_MAX_AGE"@,
        decimal(p.max_age as nat),
        "CACHESESSION_RR_TIMEOUT_MS"@,
        decimal(p.timeout_ms as nat),
    ]
}

impl CacheSessionProps {
    /// Settings for the cache named `cache_name`; each number left out takes
    /// its default. A name holding a NUL is refused.
    pub fn new(
        cache_name: &str,
        max_message: Option<u64>,
        max_age: Option<u64>,
        timeout_ms: Option<u64>,
    ) -> (r: Result<Self, SessionError>)
        ensures
            is_native_text(cache_name@) ==> (r matches Ok(p) && p@.cache_name@ == cache_name@
                && p@.max_message == or_default(max_message, DEFAULT_MAX_MESSAGES) && p@.max_age
                == or_default(max_age, DEFAULT_MAX_AGE) && p@.timeout_ms == or_default(
                timeout_ms,
                DEFAULT_TIMEOUT_MS,
            )),
            !is_native_text(cache_name@) ==> (r matches Err(SessionError::InvalidArgs(f)) && f@
                == "cache_name"@),
    {
        if !native_text(cache_name) {
            return Err(SessionError::InvalidArgs(String::from_str("cache_name")));
        }
        let max_message = match max_message {
            Some(x) => x,
            None => DEFAULT_MAX_MESSAGES,
        };
        let max_age = match max_age {
            Some(x) => x,
            None => DEFAULT_MAX_AGE,
        };
        let timeout_ms = match timeout_ms {
            Some(x) => x,
            None => DEFAULT_TIMEOUT_MS,
        };
        Ok(
            CacheSessionProps {
                props: CacheSessionPropsView {
                    cache_name: String::from_str(cache_name),
                    max_message,
                    max_age,
                    timeout_ms,
                },
            },
        )
    }

    /// The property table that the engine reads: keys and values in turn.
    pub fn to_raw(&self) -> (r: Vec<String>)
        ensures
            r.deep_view() == cache_session_table(self@),
    {
        let p = &self.props;
        let mut table: Vec<String> = Vec::new();
        push_entry(&mut table, "CACHESESSION_CACHE_NAME", p.cache_name.clone());
        push_entry(&mut table, "CACHESESSION_DEFAULT_MAX_MSGS", decimal_u64(p.max_message));
        push_entry(&mut table, "CACHESESSION_MAX_AGE", decimal_u64(p.max_age));
        push_entry(&mut table, "CACHESESSION_RR_TIMEOUT_MS", decimal_u64(p.timeout_ms));
        assert(table.deep_view() =~= cache_session_table(self@));
        table
    }
}

} // verus!
