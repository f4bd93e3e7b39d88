//! Configuration of a flow, a consumer bound to a queue, a topic endpoint or
//! a subscription: collected by a builder, validated, and encoded as a
//! property table.
use crate::endpoint_props::{endpoint_table, EndpointProps};
use crate::fault::{min_fault, range_fault, text_fault, ArgFault};
use crate::return_code::{return_code_of, SolClientReturnCode, SolClientSubCode};
use crate::text::{
    append_table, decimal_u64, flag_entry, flag_string, flag_text, is_native_text, native_option,
    native_text, number_entry, push_entry, push_flag, push_number, push_text, text_entry,
};
use vstd::prelude::*;
use vstd::string::*;

verus! {

/// Why a flow configuration was refused.
#[derive(Debug, Clone, PartialEq, Eq)]
pub enum FlowBuilderError {
    /// The engine could not create the flow: its code and diagnostic record.
    InitializationFailure(SolClientReturnCode, SolClientSubCode),
    /// The named argument holds a NUL character.
    InvalidArgs(String),
    /// The named argument is out of range: the field, the allowed range (its
    /// least value where the range has only a lower bound) and the value found.
    InvalidRange(String, String, String),
}

impl FlowBuilderError {
    /// What the error says of a refused argument; nothing for an engine failure.
    pub open spec fn fault(&self) -> Option<ArgFault> {
        match self {
            FlowBuilderError::InitializationFailure(_, _) => None,
            FlowBuilderError::InvalidArgs(f) => Some(ArgFault::Invalid(f@)),
            FlowBuilderError::InvalidRange(f, a, v) => Some(ArgFault::OutOfRange(f@, a@, v@)),
        }
    }
}

/// The outcome of creating a flow, from the engine's raw status and the
/// diagnostic record read right after the call.
pub fn flow_create_outcome(status: i32, last_error: SolClientSubCode) -> (r: Result<
    (),
    FlowBuilderError,
>)
    ensures
        return_code_of(status as int) == SolClientReturnCode::Success ==> r is Ok,
        return_code_of(status as int) != SolClientReturnCode::Success ==> r == Err::<
            (),
            FlowBuilderError,
        >(FlowBuilderError::InitializationFailure(return_code_of(status as int), last_error)),
{
    let code = SolClientReturnCode::from_raw(status);
    if code.is_ok() {
        Ok(())
    } else {
        Err(FlowBuilderError::InitializationFailure(code, last_error))
    }
}

fn check_min(field: &str, v: Option<u64>, min: u64, allowed: &str) -> (r: Option<
    FlowBuilderError,
>)
    ensures
        r is None <==> min_fault(field@, v, min as nat, allowed@) is None,
        r matches Some(e) ==> min_fault(field@, v, min as nat, allowed@) == e.fault(),
{
    match v {
        Some(x) => if x < min {
            Some(
                FlowBuilderError::InvalidRange(
                    String::from_str(field),
                    String::from_str(allowed),
                    decimal_u64(x),
                ),
            )
        } else {
            None
        },
        None => None,
    }
}

fn check_range(field: &str, v: Option<u64>, lo: u64, hi: u64, allowed: &str) -> (r: Option<
    FlowBuilderError,
>)
    ensures
        r is None <==> range_fault(field@, v, lo as nat, hi as nat, allowed@) is None,
        r matches Some(e) ==> range_fault(field@, v, lo as nat, hi as nat, allowed@) == e.fault(),
{
    match v {
        Some(x) => if x < lo || x > hi {
            Some(
                FlowBuilderError::InvalidRange(
                    String::from_str(field),
                    String::from_str(allowed),
                    decimal_u64(x),
                ),
            )
        } else {
            None
        },
        None => None,
    }
}

/// What a flow binds to.
#[derive(Debug, Clone, PartialEq, Eq)]
pub enum FlowBindEntityId {
    Sub,
    Queue { queue_name: String },
    Te { topic_endpoint_name: String },
}

/// Who acknowledges the messages of a flow.
#[derive(Debug, Clone, Copy, PartialEq, Eq, Structural)]
pub enum FlowAckMode {
    Auto,
    Client,
}

/// Whether a flow's endpoint is durable; a non-durable endpoint is created
/// with the given properties.
#[derive(Debug, Clone, PartialEq, Eq)]
pub enum FlowBindEntityDurable {
    Durable,
    NonDurable { endpoint_props: EndpointProps },
}

/// The name that a bind target carries; a subscription has none.
pub open spec fn bind_name(id: FlowBindEntityId) -> Seq<char> {
    match id {
        FlowBindEntityId::Sub => Seq::empty(),
        FlowBindEntityId::Queue { queue_name } => queue_name@,
        FlowBindEntityId::Te { topic_endpoint_name } => topic_endpoint_name@,
    }
}

/// A number of 32 bits, widened.
pub open spec fn widen32(v: Option<u32>) -> Option<u64> {
    match v {
        Some(x) => Some(x as u64),
        None => None,
    }
}

/// A number of 8 bits, widened.
pub open spec fn widen8(v: Option<u8>) -> Option<u64> {
    match v {
        Some(x) => Some(x as u64),
        None => None,
    }
}

fn widen_u32(v: Option<u32>) -> (r: Option<u64>)
    ensures
        r == widen32(v),
{
    match v {
        Some(x) => Some(x as u64),
        None => None,
    }
}

fn widen_u8(v: Option<u8>) -> (r: Option<u64>)
    ensures
        r == widen8(v),
{
    match v {
        Some(x) => Some(x as u64),
        None => None,
    }
}

/// The settings of a flow, each one optional; a validated configuration
/// holds only texts without NUL.
#[derive(Debug, Clone, PartialEq, Eq)]
pub struct FlowSettings {
    pub bind_timeout_ms: Option<u32>,
    pub bind_entity_id: Option<FlowBindEntityId>,
    pub bind_entity_durable: Option<FlowBindEntityDurable>,
    pub window_size: Option<u32>,
    pub ack_mode: Option<FlowAckMode>,
    pub topic: Option<String>,
    pub max_bind_tries: Option<u32>,
    pub ack_timer_ms: Option<u32>,
    pub ack_threshold: Option<u8>,
    pub start_state: Option<bool>,
    pub selector: Option<String>,
    pub no_local: Option<bool>,
    pub max_unacked_messages: Option<u32>,
    pub browser: Option<bool>,
    pub active_flow_ind: Option<bool>,
    pub replay_start_location: Option<String>,
    pub max_reconnect_tries: Option<u32>,
    pub reconnect_retry_interval_ms: Option<u32>,
    pub required_outcome_failed: Option<bool>,
    pub required_outcome_rejected: Option<bool>,
}

/// Collects flow settings; `build` validates them.
pub struct FlowBuilder {
    props: FlowSettings,
}

impl View for FlowBuilder {
    type V = FlowSettings;

    closed spec fn view(&self) -> FlowSettings {
        self.props
    }
}

/// A validated flow configuration, ready to be handed to the engine.
#[derive(Debug, Clone, PartialEq, Eq)]
pub struct FlowProps {
    props: FlowSettings,
}

impl View for FlowProps {
    type V = FlowSettings;

    closed spec fn view(&self) -> FlowSettings {
        self.props
    }
}

/// The first check that a set of flow settings fails, in the order in which
/// `build` makes them: texts without NUL, then the engine's numeric ranges.
pub open spec fn flow_fault(u: FlowSettings) -> Option<ArgFault> {
    let bind_entity_id = if u.bind_entity_id is Some && !is_native_text(
        bind_name(u.bind_entity_id->0),
    ) {
        Some(ArgFault::Invalid("bind_entity_id"@))
    } else {
        None
    };
    let topic = text_fault("topic"@, u.topic);
    let selector = text_fault("selector"@, u.selector);
    let replay_start_location = text_fault("replay_start_location"@, u.replay_start_location);
    let bind_timeout_ms = min_fault("bind_timeout_ms"@, widen32(u.bind_timeout_ms), 1, "1"@);
    let window_size = range_fault(
        "window_size"@,
        widen32(u.window_size),
        1,
        255,
        "1 to 255"@,
    );
    let max_bind_tries = min_fault("max_bind_tries"@, widen32(u.max_bind_tries), 1, "1"@);
    let ack_timer_ms = range_fault(
        "ack_timer_ms"@,
        widen32(u.ack_timer_ms),
        20,
        1500,
        "20 to 1500"@,
    );
    let ack_threshold = range_fault(
        "ack_threshold"@,
        widen8(u.ack_threshold),
        1,
        75,
        "1 to 75"@,
    );
    let max_unacked_messages = min_fault(
        "max_unacked_messages"@,
        widen32(u.max_unacked_messages),
        1,
        "1"@,
    );
    if bind_entity_id is Some {
        bind_entity_id
    } else if topic is Some {
        topic
    } else if selector is Some {
        selector
    } else if replay_start_location is Some {
        replay_start_location
    } else if bind_timeout_ms is Some {
        bind_timeout_ms
    } else if window_size is Some {
        window_size
    } else if max_bind_tries is Some {
        max_bind_tries
    } else if ack_timer_ms is Some {
        ack_timer_ms
    } else if ack_threshold is Some {
        ack_threshold
    } else {
        max_unacked_messages
    }
}

/// The entries that name a flow's bind target.
pub open spec fn bind_entries(id: Option<FlowBindEntityId>) -> Seq<Seq<char>> {
    match id {
        Some(FlowBindEntityId::Sub) => seq!["FLOW_BIND_ENTITY_ID"@, "1"@],
        Some(FlowBindEntityId::Queue { queue_name }) =>
            seq!["FLOW_BIND_ENTITY_ID"@, "2"@, "FLOW_BIND_NAME"@, queue_name@],
        Some(FlowBindEntityId::Te { topic_endpoint_name }) =>
            seq!["FLOW_BIND_ENTITY_ID"@, "3"@, "FLOW_BIND_NAME"@, topic_endpoint_name@],
        None => Seq::empty(),
    }
}

/// The entries for durability; a non-durable endpoint brings its own table.
pub open spec fn durable_entries(d: Option<FlowBindEntityDurable>) -> Seq<Seq<char>> {
    match d {
        Some(FlowBindEntityDurable::Durable) => seq!["FLOW_BIND_ENTITY_DURABLE"@, flag_text(true)],
        Some(FlowBindEntityDurable::NonDurable { endpoint_props }) =>
            seq!["FLOW_BIND_ENTITY_DURABLE"@, flag_text(false)] + endpoint_table(endpoint_props@),
        None => Seq::empty(),
    }
}

/// The entries for the acknowledgement mode.
pub open spec fn ack_entries(m: Option<FlowAckMode>) -> Seq<Seq<char>> {
    match m {
        Some(FlowAckMode::Auto) => seq!["FLOW_ACKMODE"@, "1"@],
        Some(FlowAckMode::Client) => seq!["FLOW_ACKMODE"@, "2"@],
        None => Seq::empty(),
    }
}

/// The property table of a validated flow configuration: keys and values in
/// turn, in a fixed order, each setting present only when it was set.
pub open spec fn flow_table(p: FlowSettings) -> Seq<Seq<char>> {
    Seq::<Seq<char>>::empty()
        + number_entry("FLOW_BIND_TIMEOUT_MS"@, widen32(p.bind_timeout_ms))
        + bind_entries(p.bind_entity_id)
        + durable_entries(p.bind_entity_durable)
        + number_entry("FLOW_WINDOWSIZE"@, widen32(p.window_size))
        + ack_entries(p.ack_mode)
        + text_entry("FLOW_TOPIC"@, p.topic)
        + number_entry("FLOW_MAX_BIND_TRIES"@, widen32(p.max_bind_tries))
        + number_entry("FLOW_ACK_TIMER_MS"@, widen32(p.ack_timer_ms))
        + number_entry("FLOW_ACK_THRESHOLD"@, widen8(p.ack_threshold))
        + flag_entry("FLOW_START_STATE"@, p.start_state)
        + text_entry("FLOW_SELECTOR"@, p.selector)
        + flag_entry("FLOW_NO_LOCAL"@, p.no_local)
        + number_entry("FLOW_MAX_UNACKED_MESSAGES"@, widen32(p.max_unacked_messages))
        + flag_entry("FLOW_BROWSER"@, p.browser)
        + flag_entry("FLOW_ACTIVE_FLOW_IND"@, p.active_flow_ind)
        + text_entry("FLOW_REPLAY_START_LOCATION"@, p.replay_start_location)
        + number_entry("FLOW_MAX_RECONNECT_TRIES"@, widen32(p.max_reconnect_tries))
        + number_entry("FLOW_RECONNECT_RETRY_INTERVAL_MS"@, widen32(p.reconnect_retry_interval_ms))
        + flag_entry("FLOW_REQUIRED_OUTCOME_FAILED"@, p.required_outcome_failed)
        + flag_entry("FLOW_REQUIRED_OUTCOME_REJECTED"@, p.required_outcome_rejected)
}

impl FlowBuilder {
    /// A builder with nothing set.
    pub fn new() -> (r: Self)
        ensures
            r@ == (FlowSettings {
                bind_timeout_ms: None,
                bind_entity_id: None,
                bind_entity_durable: None,
                window_size: None,
                ack_mode: None,
                topic: None,
                max_bind_tries: None,
                ack_timer_ms: None,
                ack_threshold: None,
                start_state: None,
                selector: None,
                no_local: None,
                max_unacked_messages: None,
                browser: None,
                active_flow_ind: None,
                replay_start_location: None,
                max_reconnect_tries: None,
                reconnect_retry_interval_ms: None,
                required_outcome_failed: None,
                required_outcome_rejected: None,
            }),
    {
        FlowBuilder {
            props: FlowSettings {
                bind_timeout_ms: None,
                bind_entity_id: None,
                bind_entity_durable: None,
                window_size: None,
                ack_mode: None,
                topic: None,
                max_bind_tries: None,
                ack_timer_ms: None,
                ack_threshold: None,
                start_state: None,
                selector: None,
                no_local: None,
                max_unacked_messages: None,
                browser: None,
                active_flow_ind: None,
                replay_start_location: None,
                max_reconnect_tries: None,
                reconnect_retry_interval_ms: None,
                required_outcome_failed: None,
                required_outcome_rejected: None,
            },
        }
    }

    /// Validates the settings: no text may hold a NUL, and every number must
    /// lie in the engine's range.
    pub fn build(self) -> (r: Result<FlowProps, FlowBuilderError>)
        ensures
            flow_fault(self@) matches Some(f) ==> (r matches Err(e) && e.fault() == Some(f)),
            flow_fault(self@) is None ==> (r matches Ok(p) && p@ == self@ && p.wf()),
    {
        let u = self.props;
        let name_ok = match &u.bind_entity_id {
            Some(FlowBindEntityId::Sub) => true,
            Some(FlowBindEntityId::Queue { queue_name }) => native_text(queue_name.as_str()),
            Some(FlowBindEntityId::Te { topic_endpoint_name }) => native_text(
                topic_endpoint_name.as_str(),
            ),
            None => true,
        };
        if !name_ok {
            return Err(FlowBuilderError::InvalidArgs(String::from_str("bind_entity_id")));
        }
        if !native_option(&u.topic) {
            return Err(FlowBuilderError::InvalidArgs(String::from_str("topic")));
        }
        if !native_option(&u.selector) {
            return Err(FlowBuilderError::InvalidArgs(String::from_str("selector")));
        }
        if !native_option(&u.replay_start_location) {
            return Err(FlowBuilderError::InvalidArgs(String::from_str("replay_start_location")));
        }
        match check_min("bind_timeout_ms", widen_u32(u.bind_timeout_ms), 1, "1") {
            Some(e) => {
                return Err(e);
            },
            None => {},
        }
        match check_range("window_size", widen_u32(u.window_size), 1, 255, "1 to 255") {
            Some(e) => {
                return Err(e);
            },
            None => {},
        }
        match check_min("max_bind_tries", widen_u32(u.max_bind_tries), 1, "1") {
            Some(e) => {
                return Err(e);
            },
            None => {},
        }
        match check_range("ack_timer_ms", widen_u32(u.ack_timer_ms), 20, 1500, "20 to 1500") {
            Some(e) => {
                return Err(e);
            },
            None => {},
        }
        match check_range("ack_threshold", widen_u8(u.ack_threshold), 1, 75, "1 to 75") {
            Some(e) => {
                return Err(e);
            },
            None => {},
        }
        match check_min("max_unacked_messages", widen_u32(u.max_unacked_messages), 1, "1") {
            Some(e) => {
                return Err(e);
            },
            None => {},
        }
        Ok(FlowProps { props: u })
    }

    /// Sets how long binding may take, in milliseconds; at least 1.
    pub fn bind_timeout_ms(self, bind_timeout_ms: u32) -> (r: Self)
        ensures
            r@ == (FlowSettings {
                bind_timeout_ms: Some(bind_timeout_ms),
                ..self@
            }),
    {
        FlowBuilder {
            props: FlowSettings {
                bind_timeout_ms: Some(bind_timeout_ms),
                ..self.props
            },
        }
    }

    /// Sets what the flow binds to: a subscription, a queue or a topic endpoint.
    pub fn bind_entity_id(self, bind_entity_id: FlowBindEntityId) -> (r: Self)
        ensures
            r@ == (FlowSettings {
                bind_entity_id: Some(bind_entity_id),
                ..self@
            }),
    {
        FlowBuilder {
            props: FlowSettings {
                bind_entity_id: Some(bind_entity_id),
                ..self.props
            },
        }
    }

    /// Sets whether the bound endpoint is durable; a non-durable one comes with its properties.
    pub fn bind_entity_durable(self, bind_entity_durable: FlowBindEntityDurable) -> (r: Self)
        ensures
            r@ == (FlowSettings {
                bind_entity_durable: Some(bind_entity_durable),
                ..self@
            }),
    {
        FlowBuilder {
            props: FlowSettings {
                bind_entity_durable: Some(bind_entity_durable),
                ..self.props
            },
        }
    }

    /// Sets how many messages the broker may send before an acknowledgement; 1 to 255.
    pub fn window_size(self, window_size: u32) -> (r: Self)
        ensures
            r@ == (FlowSettings {
                window_size: Some(window_size),
                ..self@
            }),
    {
        FlowBuilder {
            props: FlowSettings {
                window_size: Some(window_size),
                ..self.props
            },
        }
    }

    /// Sets whether the engine or the application acknowledges messages.
    pub fn ack_mode(self, ack_mode: FlowAckMode) -> (r: Self)
        ensures
            r@ == (FlowSettings {
                ack_mode: Some(ack_mode),
                ..self@
            }),
    {
        FlowBuilder {
            props: FlowSettings {
                ack_mode: Some(ack_mode),
                ..self.props
            },
        }
    }

    /// Sets the topic that a topic endpoint subscribes to.
    pub fn topic(self, topic: &str) -> (r: Self)
        ensures
            r@ == (FlowSettings {
                topic: r@.topic,
                ..self@
            }),
            r@.topic matches Some(v) && v@ == topic@,
    {
        FlowBuilder {
            props: FlowSettings {
                topic: Some(String::from_str(topic)),
                ..self.props
            },
        }
    }

    /// Sets how often binding is tried; at least 1.
    pub fn max_bind_tries(self, max_bind_tries: u32) -> (r: Self)
        ensures
            r@ == (FlowSettings {
                max_bind_tries: Some(max_bind_tries),
                ..self@
            }),
    {
        FlowBuilder {
            props: FlowSettings {
                max_bind_tries: Some(max_bind_tries),
                ..self.props
            },
        }
    }

    /// Sets the time after which pending acknowledgements are sent, in milliseconds; 20 to 1500.
    pub fn ack_timer_ms(self, ack_timer_ms: u32) -> (r: Self)
        ensures
            r@ == (FlowSettings {
                ack_timer_ms: Some(ack_timer_ms),
                ..self@
            }),
    {
        FlowBuilder {
            props: FlowSettings {
                ack_timer_ms: Some(ack_timer_ms),
                ..self.props
            },
        }
    }

    /// Sets the share of the window, in percent, after which acknowledgements are sent; 1 to 75.
    pub fn ack_threshold(self, ack_threshold: u8) -> (r: Self)
        ensures
            r@ == (FlowSettings {
                ack_threshold: Some(ack_threshold),
                ..self@
            }),
    {
        FlowBuilder {
            props: FlowSettings {
                ack_threshold: Some(ack_threshold),
                ..self.props
            },
        }
    }

    /// Sets whether the flow starts delivering at once.
    pub fn start_state(self, start_state: bool) -> (r: Self)
        ensures
            r@ == (FlowSettings {
                start_state: Some(start_state),
                ..self@
            }),
    {
        FlowBuilder {
            props: FlowSettings {
                start_state: Some(start_state),
                ..self.props
            },
        }
    }

    /// Sets the selector that filters the delivered messages.
    pub fn selector(self, selector: &str) -> (r: Self)
        ensures
            r@ == (FlowSettings {
                selector: r@.selector,
                ..self@
            }),
            r@.selector matches Some(v) && v@ == selector@,
    {
        FlowBuilder {
            props: FlowSettings {
                selector: Some(String::from_str(selector)),
                ..self.props
            },
        }
    }

    /// Sets whether messages published by this session are kept from the flow.
    pub fn no_local(self, no_local: bool) -> (r: Self)
        ensures
            r@ == (FlowSettings {
                no_local: Some(no_local),
                ..self@
            }),
    {
        FlowBuilder {
            props: FlowSettings {
                no_local: Some(no_local),
                ..self.props
            },
        }
    }

    /// Sets how many messages may be delivered and not yet acknowledged; at least 1.
    pub fn max_unacked_messages(self, max_unacked_messages: u32) -> (r: Self)
        ensures
            r@ == (FlowSettings {
                max_unacked_messages: Some(max_unacked_messages),
                ..self@
            }),
    {
        FlowBuilder {
            props: FlowSettings {
                max_unacked_messages: Some(max_unacked_messages),
                ..self.props
            },
        }
    }

    /// Sets whether the flow browses a queue without taking its messages.
    pub fn browser(self, browser: bool) -> (r: Self)
        ensures
            r@ == (FlowSettings {
                browser: Some(browser),
                ..self@
            }),
    {
        FlowBuilder {
            props: FlowSettings {
                browser: Some(browser),
                ..self.props
            },
        }
    }

    /// Sets whether the flow reports becoming active or inactive.
    pub fn active_flow_ind(self, active_flow_ind: bool) -> (r: Self)
        ensures
            r@ == (FlowSettings {
                active_flow_ind: Some(active_flow_ind),
                ..self@
            }),
    {
        FlowBuilder {
            props: FlowSettings {
                active_flow_ind: Some(active_flow_ind),
                ..self.props
            },
        }
    }

    /// Sets where a replay starts.
    pub fn replay_start_location(self, replay_start_location: &str) -> (r: Self)
        ensures
            r@ == (FlowSettings {
                replay_start_location: r@.replay_start_location,
                ..self@
            }),
            r@.replay_start_location matches Some(v) && v@ == replay_start_location@,
    {
        FlowBuilder {
            props: FlowSettings {
                replay_start_location: Some(String::from_str(replay_start_location)),
                ..self.props
            },
        }
    }

    /// Sets how often the flow tries to reconnect.
    pub fn max_reconnect_tries(self, max_reconnect_tries: u32) -> (r: Self)
        ensures
            r@ == (FlowSettings {
                max_reconnect_tries: Some(max_reconnect_tries),
                ..self@
            }),
    {
        FlowBuilder {
            props: FlowSettings {
                max_reconnect_tries: Some(max_reconnect_tries),
                ..self.props
            },
        }
    }

    /// Sets the wait between reconnection attempts, in milliseconds.
    pub fn reconnect_retry_interval_ms(self, reconnect_retry_interval_ms: u32) -> (r: Self)
        ensures
            r@ == (FlowSettings {
                reconnect_retry_interval_ms: Some(reconnect_retry_interval_ms),
                ..self@
            }),
    {
        FlowBuilder {
            props: FlowSettings {
                reconnect_retry_interval_ms: Some(reconnect_retry_interval_ms),
                ..self.props
            },
        }
    }

    /// Sets whether the application may settle a message as failed.
    pub fn required_outcome_failed(self, required_outcome_failed: bool) -> (r: Self)
        ensures
            r@ == (FlowSettings {
                required_outcome_failed: Some(required_outcome_failed),
                ..self@
            }),
    {
        FlowBuilder {
            props: FlowSettings {
                required_outcome_failed: Some(required_outcome_failed),
                ..self.props
            },
        }
    }

    /// Sets whether the application may settle a message as rejected.
    pub fn required_outcome_rejected(self, required_outcome_rejected: bool) -> (r: Self)
        ensures
            r@ == (FlowSettings {
                required_outcome_rejected: Some(required_outcome_rejected),
                ..self@
            }),
    {
        FlowBuilder {
            props: FlowSettings {
                required_outcome_rejected: Some(required_outcome_rejected),
                ..self.props
            },
        }
    }
}

impl FlowProps {
    /// Every text in the configuration can be handed to the engine.
    pub open spec fn wf(&self) -> bool {
        flow_fault(self@) is None
    }

    /// The property table that the engine reads: keys and values in turn.
    pub fn to_raw(&self) -> (r: Vec<String>)
        ensures
            r.deep_view() == flow_table(self@),
    {
        let p = &self.props;
        let mut table: Vec<String> = Vec::new();
        push_number(&mut table, "FLOW_BIND_TIMEOUT_MS", widen_u32(p.bind_timeout_ms));
        let ghost before = table.deep_view();
        match &p.bind_entity_id {
            Some(FlowBindEntityId::Sub) => {
                push_entry(&mut table, "FLOW_BIND_ENTITY_ID", String::from_str("1"));
            },
            Some(FlowBindEntityId::Queue { queue_name }) => {
                push_entry(&mut table, "FLOW_BIND_ENTITY_ID", String::from_str("2"));
                push_entry(&mut table, "FLOW_BIND_NAME", queue_name.clone());
            },
            Some(FlowBindEntityId::Te { topic_endpoint_name }) => {
                push_entry(&mut table, "FLOW_BIND_ENTITY_ID", String::from_str("3"));
                push_entry(&mut table, "FLOW_BIND_NAME", topic_endpoint_name.clone());
            },
            None => {},
        }
        assert(table.deep_view() =~= before + bind_entries(p.bind_entity_id));
        let ghost before = table.deep_view();
        match &p.bind_entity_durable {
            Some(FlowBindEntityDurable::Durable) => {
                push_entry(&mut table, "FLOW_BIND_ENTITY_DURABLE", flag_string(true));
            },
            Some(FlowBindEntityDurable::NonDurable { endpoint_props }) => {
                push_entry(&mut table, "FLOW_BIND_ENTITY_DURABLE", flag_string(false));
                append_table(&mut table, endpoint_props.to_raw());
            },
            None => {},
        }
        assert(table.deep_view() =~= before + durable_entries(p.bind_entity_durable));
        push_number(&mut table, "FLOW_WINDOWSIZE", widen_u32(p.window_size));
        let ghost before = table.deep_view();
        match p.ack_mode {
            Some(FlowAckMode::Auto) => {
                push_entry(&mut table, "FLOW_ACKMODE", String::from_str("1"));
            },
            Some(FlowAckMode::Client) => {
                push_entry(&mut table, "FLOW_ACKMODE", String::from_str("2"));
            },
            None => {},
        }
        assert(table.deep_view() =~= before + ack_entries(p.ack_mode));
        push_text(&mut table, "FLOW_TOPIC", &p.topic);
        push_number(&mut table, "FLOW_MAX_BIND_TRIES", widen_u32(p.max_bind_tries));
        push_number(&mut table, "FLOW_ACK_TIMER_MS", widen_u32(p.ack_timer_ms));
        push_number(&mut table, "FLOW_ACK_THRESHOLD", widen_u8(p.ack_threshold));
        push_flag(&mut table, "FLOW_START_STATE", p.start_state);
        push_text(&mut table, "FLOW_SELECTOR", &p.selector);
        push_flag(&mut table, "FLOW_NO_LOCAL", p.no_local);
        push_number(&mut table, "FLOW_MAX_UNACKED_MESSAGES", widen_u32(p.max_unacked_messages));
        push_flag(&mut table, "FLOW_BROWSER", p.browser);
        push_flag(&mut table, "FLOW_ACTIVE_FLOW_IND", p.active_flow_ind);
        push_text(&mut table, "FLOW_REPLAY_START_LOCATION", &p.replay_start_location);
        push_number(&mut table, "FLOW_MAX_RECONNECT_TRIES", widen_u32(p.max_reconnect_tries));
        push_number(
            &mut table,
            "FLOW_RECONNECT_RETRY_INTERVAL_MS",
            widen_u32(p.reconnect_retry_interval_ms),
        );
        push_flag(&mut table, "FLOW_REQUIRED_OUTCOME_FAILED", p.required_outcome_failed);
        push_flag(&mut table, "FLOW_REQUIRED_OUTCOME_REJECTED", p.required_outcome_rejected);
        table
    }
}

} // verus!
