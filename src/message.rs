//! Messages: their typed header fields, the builder that assembles an
//! outbound message, and read-only accessors over a built message.
use crate::return_code::{SolClientReturnCode, SolClientSubCode};
use crate::text::{is_native_option, is_native_text, native_option, native_text};
use vstd::prelude::*;
use vstd::string::*;

verus! {

/// The most bytes of user data that a message can carry.
pub const MAX_USER_DATA_SIZE: usize = 36;

/// How the broker delivers a message.
#[derive(Debug, Clone, Copy, PartialEq, Eq, Structural)]
pub enum DeliveryMode {
    Direct,
    Persistent,
    NonPersistent,
}

/// The engine's number for a delivery mode.
pub open spec fn delivery_mode_raw(m: DeliveryMode) -> int {
    match m {
        DeliveryMode::Direct => 0x00,
        DeliveryMode::Persistent => 0x10,
        DeliveryMode::NonPersistent => 0x20,
    }
}

impl DeliveryMode {
    /// The engine's number for this mode.
    pub fn to_u32(&self) -> (r: u32)
        ensures
            r as int == delivery_mode_raw(*self),
    {
        match self {
            DeliveryMode::Direct => 0x00,
            DeliveryMode::Persistent => 0x10,
            DeliveryMode::NonPersistent => 0x20,
        }
    }

    /// The mode with the engine's number `value`, if there is one.
    pub fn from_u32(value: u32) -> (r: Option<Self>)
        ensures
            r matches Some(m) ==> delivery_mode_raw(m) == value as int,
            r is None <==> (value != 0x00 && value != 0x10 && value != 0x20),
    {
        if value == 0x00 {
            Some(DeliveryMode::Direct)
        } else if value == 0x10 {
            Some(DeliveryMode::Persistent)
        } else if value == 0x20 {
            Some(DeliveryMode::NonPersistent)
        } else {
            None
        }
    }
}

/// The class of service of a message.
#[derive(Debug, Clone, Copy, PartialEq, Eq, Structural)]
pub enum ClassOfService {
    One,
    Two,
    Three,
}

/// The engine's number for a class of service.
pub open spec fn class_of_service_raw(c: ClassOfService) -> int {
    match c {
        ClassOfService::One => 0,
        ClassOfService::Two => 1,
        ClassOfService::Three => 2,
    }
}

impl ClassOfService {
    /// The engine's number for this class.
    pub fn to_u32(&self) -> (r: u32)
        ensures
            r as int == class_of_service_raw(*self),
    {
        match self {
            ClassOfService::One => 0,
            ClassOfService::Two => 1,
            ClassOfService::Three => 2,
        }
    }

    /// The class with the engine's number `value`, if there is one.
    pub fn from_u32(value: u32) -> (r: Option<Self>)
        ensures
            r matches Some(c) ==> class_of_service_raw(c) == value as int,
            r is None <==> value > 2,
    {
        if value == 0 {
            Some(ClassOfService::One)
        } else if value == 1 {
            Some(ClassOfService::Two)
        } else if value == 2 {
            Some(ClassOfService::Three)
        } else {
            None
        }
    }
}

/// The kind of a message destination.
#[derive(Debug, Clone, Copy, PartialEq, Eq, Structural)]
pub enum DestinationType {
    Null,
    Topic,
    Queue,
    TopicTemp,
    QueueTemp,
}

/// The engine's number for a kind of destination.
pub open spec fn destination_type_raw(t: DestinationType) -> int {
    match t {
        DestinationType::Null => -1,
        DestinationType::Topic => 0,
        DestinationType::Queue => 1,
        DestinationType::TopicTemp => 2,
        DestinationType::QueueTemp => 3,
    }
}

impl DestinationType {
    /// The engine's number for this kind.
    pub fn to_i32(&self) -> (r: i32)
        ensures
            r as int == destination_type_raw(*self),
    {
        match self {
            DestinationType::Null => -1,
            DestinationType::Topic => 0,
            DestinationType::Queue => 1,
            DestinationType::TopicTemp => 2,
            DestinationType::QueueTemp => 3,
        }
    }

    /// The kind with the engine's number `value`; an unknown number is `Null`.
    pub fn from_i32(value: i32) -> (r: Self)
        ensures
            -1 <= value <= 3 ==> destination_type_raw(r) == value as int,
            !(-1 <= value <= 3) ==> r == DestinationType::Null,
    {
        if value == 0 {
            DestinationType::Topic
        } else if value == 1 {
            DestinationType::Queue
        } else if value == 2 {
            DestinationType::TopicTemp
        } else if value == 3 {
            DestinationType::QueueTemp
        } else {
            DestinationType::Null
        }
    }
}

/// A general failure of the library, without detail.
#[derive(Debug, Clone, Copy, PartialEq, Eq, Structural)]
pub struct SolaceError;

/// Where a message goes: a kind of destination and its name.
#[derive(Debug, Clone, PartialEq, Eq)]
pub struct MessageDestination {
    pub dest_type: DestinationType,
    pub dest: String,
}

impl MessageDestination {
    /// A destination of the given kind; fails when the name holds a NUL.
    pub fn new(dest_type: DestinationType, destination: &str) -> (r: Result<Self, SolaceError>)
        ensures
            is_native_text(destination@) ==> (r matches Ok(d) && d.dest_type == dest_type
                && d.dest@ == destination@),
            !is_native_text(destination@) ==> r is Err,
    {
        if native_text(destination) {
            Ok(MessageDestination { dest_type, dest: String::from_str(destination) })
        } else {
            Err(SolaceError)
        }
    }
}

/// Why a message field could not be read.
#[derive(Debug, Clone, PartialEq, Eq)]
pub enum MessageError {
    /// Reading the named field failed with the code.
    FieldError(&'static str, SolClientReturnCode),
    /// The named field holds a value of the wrong form.
    FieldConvertionError(&'static str),
}

/// Why a message could not be built.
#[derive(Debug, Clone, PartialEq, Eq)]
pub enum MessageBuilderError {
    /// The named argument holds a NUL character.
    InvalidArgs(String),
    /// The named argument must be set.
    MissingRequiredArgs(String),
    /// The named argument is too large: the field, the largest size allowed
    /// and the size found.
    SizeErrorArgs(String, usize, usize),
    /// The sender timestamp does not fit the engine's signed milliseconds.
    TimestampError,
}

/// What a message builder error says.
pub enum MessageFault {
    Invalid(Seq<char>),
    Missing(Seq<char>),
    Size(Seq<char>, nat, nat),
    Timestamp,
}

impl MessageBuilderError {
    pub open spec fn fault(&self) -> MessageFault {
        match self {
            MessageBuilderError::InvalidArgs(f) => MessageFault::Invalid(f@),
            MessageBuilderError::MissingRequiredArgs(f) => MessageFault::Missing(f@),
            MessageBuilderError::SizeErrorArgs(f, max, found) => MessageFault::Size(
                f@,
                *max as nat,
                *found as nat,
            ),
            MessageBuilderError::TimestampError => MessageFault::Timestamp,
        }
    }
}

/// The fields that a message builder has collected.
#[derive(Debug, Clone, PartialEq, Eq)]
pub struct UncheckedMessage {
    pub delivery_mode: Option<DeliveryMode>,
    pub destination: Option<MessageDestination>,
    pub payload: Option<Vec<u8>>,
    pub correlation_id: Option<String>,
    pub class_of_service: Option<ClassOfService>,
    pub seq_number: Option<u64>,
    pub priority: Option<u8>,
    pub application_id: Option<String>,
    pub application_msg_type: Option<String>,
    pub user_data: Option<Vec<u8>>,
    /// Milliseconds since the Unix epoch.
    pub sender_timestamp: Option<u64>,
    pub eliding_eligible: bool,
    pub is_reply: bool,
}

/// The fields of a built message.
#[derive(Debug, Clone, PartialEq, Eq)]
pub struct MessageFields {
    pub delivery_mode: DeliveryMode,
    pub destination: MessageDestination,
    pub payload: Vec<u8>,
    pub correlation_id: Option<String>,
    pub class_of_service: Option<ClassOfService>,
    pub seq_number: Option<u64>,
    pub priority: Option<u8>,
    pub application_id: Option<String>,
    pub application_msg_type: Option<String>,
    pub user_data: Option<Vec<u8>>,
    /// Milliseconds since the Unix epoch.
    pub sender_timestamp: Option<u64>,
    pub eliding_eligible: bool,
    pub is_reply: bool,
}

/// The first check that a set of message fields fails, in the order in which
/// `build` makes them.
pub open spec fn message_fault(u: UncheckedMessage) -> Option<MessageFault> {
    if u.delivery_mode is None {
        Some(MessageFault::Missing("delivery_mode"@))
    } else if u.destination is None {
        Some(MessageFault::Missing("destination"@))
    } else if !is_native_text(u.destination->0.dest@) {
        Some(MessageFault::Invalid("destination"@))
    } else if u.user_data is Some && u.user_data->0@.len() > MAX_USER_DATA_SIZE {
        Some(
            MessageFault::Size(
                "user_data"@,
                MAX_USER_DATA_SIZE as nat,
                u.user_data->0@.len(),
            ),
        )
    } else if u.payload is None {
        Some(MessageFault::Missing("payload"@))
    } else if !is_native_option(u.correlation_id) {
        Some(MessageFault::Invalid("correlation_id"@))
    } else if u.sender_timestamp is Some && u.sender_timestamp->0 > i64::MAX {
        Some(MessageFault::Timestamp)
    } else if !is_native_option(u.application_id) {
        Some(MessageFault::Invalid("application_id"@))
    } else if !is_native_option(u.application_msg_type) {
        Some(MessageFault::Invalid("application_msg_type"@))
    } else {
        None
    }
}

/// The message that fields without a fault make.
pub open spec fn built_message(u: UncheckedMessage) -> MessageFields {
    MessageFields {
        delivery_mode: u.delivery_mode->0,
        destination: u.destination->0,
        payload: u.payload->0,
        correlation_id: u.correlation_id,
        class_of_service: u.class_of_service,
        seq_number: u.seq_number,
        priority: u.priority,
        application_id: u.application_id,
        application_msg_type: u.application_msg_type,
        user_data: u.user_data,
        sender_timestamp: u.sender_timestamp,
        eliding_eligible: u.eliding_eligible,
        is_reply: u.is_reply,
    }
}

/// Assembles an outbound message field by field; `build` checks the result.
pub struct OutboundMessageBuilder {
    fields: UncheckedMessage,
}

impl View for OutboundMessageBuilder {
    type V = UncheckedMessage;

    closed spec fn view(&self) -> UncheckedMessage {
        self.fields
    }
}

/// A message ready to be published: built, and checked, by its builder.
pub struct OutboundMessage {
    fields: MessageFields,
}

impl View for OutboundMessage {
    type V = MessageFields;

    closed spec fn view(&self) -> MessageFields {
        self.fields
    }
}

impl OutboundMessageBuilder {
    /// A builder with no field set.
    pub fn new() -> (r: Self)
        ensures
            r@ == (UncheckedMessage {
                delivery_mode: None,
                destination: None,
                payload: None,
                correlation_id: None,
                class_of_service: None,
                seq_number: None,
                priority: None,
                application_id: None,
                application_msg_type: None,
                user_data: None,
                sender_timestamp: None,
                eliding_eligible: false,
                is_reply: false,
            }),
    {
        OutboundMessageBuilder {
            fields: UncheckedMessage {
                delivery_mode: None,
                destination: None,
                payload: None,
                correlation_id: None,
                class_of_service: None,
                seq_number: None,
                priority: None,
                application_id: None,
                application_msg_type: None,
                user_data: None,
                sender_timestamp: None,
                eliding_eligible: false,
                is_reply: false,
            },
        }
    }

    /// Sets how the message is delivered. Required.
    pub fn delivery_mode(self, mode: DeliveryMode) -> (r: Self)
        ensures
            r@ == (UncheckedMessage { delivery_mode: Some(mode), ..self@ }),
    {
        OutboundMessageBuilder {
            fields: UncheckedMessage { delivery_mode: Some(mode), ..self.fields },
        }
    }

    /// Sets the application's id for the message.
    pub fn application_id(self, application_id: &str) -> (r: Self)
        ensures
            r@ == (UncheckedMessage { application_id: r@.application_id, ..self@ }),
            r@.application_id matches Some(v) && v@ == application_id@,
    {
        OutboundMessageBuilder {
            fields: UncheckedMessage {
                application_id: Some(String::from_str(application_id)),
                ..self.fields
            },
        }
    }

    /// Sets the application's type for the message.
    pub fn application_msg_type(self, message_type: &str) -> (r: Self)
        ensures
            r@ == (UncheckedMessage { application_msg_type: r@.application_msg_type, ..self@ }),
            r@.application_msg_type matches Some(v) && v@ == message_type@,
    {
        OutboundMessageBuilder {
            fields: UncheckedMessage {
                application_msg_type: Some(String::from_str(message_type)),
                ..self.fields
            },
        }
    }

    /// Sets where the message goes. Required.
    pub fn destination(self, destination: MessageDestination) -> (r: Self)
        ensures
            r@ == (UncheckedMessage { destination: Some(destination), ..self@ }),
    {
        OutboundMessageBuilder {
            fields: UncheckedMessage { destination: Some(destination), ..self.fields },
        }
    }

    /// Sets the class of service.
    pub fn class_of_service(self, cos: ClassOfService) -> (r: Self)
        ensures
            r@ == (UncheckedMessage { class_of_service: Some(cos), ..self@ }),
    {
        OutboundMessageBuilder {
            fields: UncheckedMessage { class_of_service: Some(cos), ..self.fields },
        }
    }

    /// Sets the sequence number.
    pub fn seq_number(self, seq_num: u64) -> (r: Self)
        ensures
            r@ == (UncheckedMessage { seq_number: Some(seq_num), ..self@ }),
    {
        OutboundMessageBuilder {
            fields: UncheckedMessage { seq_number: Some(seq_num), ..self.fields },
        }
    }

    /// Sets the time of sending, in milliseconds since the Unix epoch.
    pub fn sender_timestamp(self, ts_ms: u64) -> (r: Self)
        ensures
            r@ == (UncheckedMessage { sender_timestamp: Some(ts_ms), ..self@ }),
    {
        OutboundMessageBuilder {
            fields: UncheckedMessage { sender_timestamp: Some(ts_ms), ..self.fields },
        }
    }

    /// Sets the priority.
    pub fn priority(self, priority: u8) -> (r: Self)
        ensures
            r@ == (UncheckedMessage { priority: Some(priority), ..self@ }),
    {
        OutboundMessageBuilder {
            fields: UncheckedMessage { priority: Some(priority), ..self.fields },
        }
    }

    /// Sets whether the message answers a request.
    pub fn is_reply(self, is_reply: bool) -> (r: Self)
        ensures
            r@ == (UncheckedMessage { is_reply, ..self@ }),
    {
        OutboundMessageBuilder { fields: UncheckedMessage { is_reply, ..self.fields } }
    }

    /// Sets the user data, at most `MAX_USER_DATA_SIZE` bytes.
    pub fn user_data(self, data: &[u8]) -> (r: Self)
        ensures
            r@ == (UncheckedMessage { user_data: r@.user_data, ..self@ }),
            r@.user_data matches Some(v) && v@ == data@,
    {
        OutboundMessageBuilder {
            fields: UncheckedMessage {
                user_data: Some(vstd::slice::slice_to_vec(data)),
                ..self.fields
            },
        }
    }

    /// Sets the payload. Required.
    pub fn payload(self, message: &[u8]) -> (r: Self)
        ensures
            r@ == (UncheckedMessage { payload: r@.payload, ..self@ }),
            r@.payload matches Some(v) && v@ == message@,
    {
        OutboundMessageBuilder {
            fields: UncheckedMessage {
                payload: Some(vstd::slice::slice_to_vec(message)),
                ..self.fields
            },
        }
    }

    /// Sets the correlation id, which ties a reply to its request.
    pub fn correlation_id(self, id: &str) -> (r: Self)
        ensures
            r@ == (UncheckedMessage { correlation_id: r@.correlation_id, ..self@ }),
            r@.correlation_id matches Some(v) && v@ == id@,
    {
        OutboundMessageBuilder {
            fields: UncheckedMessage { correlation_id: Some(String::from_str(id)), ..self.fields },
        }
    }

    /// Sets whether the message may be elided.
    pub fn eliding_eligible(self, eliding_eligible: bool) -> (r: Self)
        ensures
            r@ == (UncheckedMessage { eliding_eligible, ..self@ }),
    {
        OutboundMessageBuilder { fields: UncheckedMessage { eliding_eligible, ..self.fields } }
    }

    /// Checks the fields and makes the message: delivery mode, destination
    /// and payload are required, the user data is bounded, texts hold no NUL
    /// and the timestamp fits the engine's signed milliseconds.
    pub fn build(self) -> (r: Result<OutboundMessage, MessageBuilderError>)
        ensures
            message_fault(self@) matches Some(f) ==> (r matches Err(e) && e.fault() == f),
            message_fault(self@) is None ==> (r matches Ok(m) && m@ == built_message(self@)
                && m.wf()),
    {
        let u = self.fields;
        let delivery_mode = match u.delivery_mode {
            Some(m) => m,
            None => {
                return Err(
                    MessageBuilderError::MissingRequiredArgs(String::from_str("delivery_mode")),
                );
            },
        };
        let destination = match u.destination {
            Some(d) => d,
            None => {
                return Err(
                    MessageBuilderError::MissingRequiredArgs(String::from_str("destination")),
                );
            },
        };
        if !native_text(destination.dest.as_str()) {
            return Err(MessageBuilderError::InvalidArgs(String::from_str("destination")));
        }
        match &u.user_data {
            Some(data) => {
                if data.len() > MAX_USER_DATA_SIZE {
                    return Err(
                        MessageBuilderError::SizeErrorArgs(
                            String::from_str("user_data"),
                            MAX_USER_DATA_SIZE,
                            data.len(),
                        ),
                    );
                }
            },
            None => {},
        }
        let payload = match u.payload {
            Some(p) => p,
            None => {
                return Err(MessageBuilderError::MissingRequiredArgs(String::from_str("payload")));
            },
        };
        if !native_option(&u.correlation_id) {
            return Err(MessageBuilderError::InvalidArgs(String::from_str("correlation_id")));
        }
        match u.sender_timestamp {
            Some(ts) => {
                if ts > i64::MAX as u64 {
                    return Err(MessageBuilderError::TimestampError);
                }
            },
            None => {},
        }
        if !native_option(&u.application_id) {
            return Err(MessageBuilderError::InvalidArgs(String::from_str("application_id")));
        }
        if !native_option(&u.application_msg_type) {
            return Err(MessageBuilderError::InvalidArgs(String::from_str("application_msg_type")));
        }
        Ok(
            OutboundMessage {
                fields: MessageFields {
                    delivery_mode,
                    destination,
                    payload,
                    correlation_id: u.correlation_id,
                    class_of_service: u.class_of_service,
                    seq_number: u.seq_number,
                    priority: u.priority,
                    application_id: u.application_id,
                    application_msg_type: u.application_msg_type,
                    user_data: u.user_data,
                    sender_timestamp: u.sender_timestamp,
                    eliding_eligible: u.eliding_eligible,
                    is_reply: u.is_reply,
                },
            },
        )
    }
}

/// The engine's class of service for a message: the one set, else the first.
pub open spec fn effective_class_of_service(c: Option<ClassOfService>) -> ClassOfService {
    match c {
        Some(x) => x,
        None => ClassOfService::One,
    }
}

impl OutboundMessage {
    /// A well-formed message: what its builder checks holds of it.
    pub open spec fn wf(&self) -> bool {
        &&& is_native_text(self@.destination.dest@)
        &&& is_native_option(self@.correlation_id)
        &&& is_native_option(self@.application_id)
        &&& is_native_option(self@.application_msg_type)
        &&& (self@.user_data matches Some(d) ==> d@.len() <= MAX_USER_DATA_SIZE)
        &&& (self@.sender_timestamp matches Some(t) ==> t <= i64::MAX)
    }

    /// The delivery mode.
    pub fn get_delivery_mode(&self) -> (r: DeliveryMode)
        ensures
            r == self@.delivery_mode,
    {
        self.fields.delivery_mode
    }

    /// The payload bytes.
    pub fn get_payload(&self) -> (r: Result<Option<&[u8]>, MessageError>)
        ensures
            r matches Ok(Some(p)) && p@ == self@.payload@,
    {
        Ok(Some(self.fields.payload.as_slice()))
    }

    /// The application's id for the message, if set.
    pub fn get_application_message_id(&self) -> (r: Option<&str>)
        ensures
            r is None <==> self@.application_id is None,
            r matches Some(s) ==> s@ == self@.application_id->0@,
    {
        match &self.fields.application_id {
            Some(s) => Some(s.as_str()),
            None => None,
        }
    }

    /// The application's type for the message, if set.
    pub fn get_application_msg_type(&self) -> (r: Option<&str>)
        ensures
            r is None <==> self@.application_msg_type is None,
            r matches Some(s) ==> s@ == self@.application_msg_type->0@,
    {
        match &self.fields.application_msg_type {
            Some(s) => Some(s.as_str()),
            None => None,
        }
    }

    /// The class of service; the first class where none was set.
    pub fn get_class_of_service(&self) -> (r: Result<ClassOfService, MessageError>)
        ensures
            r == Ok::<ClassOfService, MessageError>(
                effective_class_of_service(self@.class_of_service),
            ),
    {
        match self.fields.class_of_service {
            Some(c) => Ok(c),
            None => Ok(ClassOfService::One),
        }
    }

    /// The correlation id, if set.
    pub fn get_correlation_id(&self) -> (r: Result<Option<&str>, MessageError>)
        ensures
            r is Ok,
            r matches Ok(v) && (v is None <==> self@.correlation_id is None),
            r matches Ok(Some(s)) ==> s@ == self@.correlation_id->0@,
    {
        match &self.fields.correlation_id {
            Some(s) => Ok(Some(s.as_str())),
            None => Ok(None),
        }
    }

    /// The expiration time; a built message never expires, which the engine
    /// writes as 0.
    pub fn get_expiration(&self) -> (r: i64)
        ensures
            r == 0,
    {
        0
    }

    /// The priority, if set.
    pub fn get_priority(&self) -> (r: Result<Option<u8>, MessageError>)
        ensures
            r == Ok::<Option<u8>, MessageError>(self@.priority),
    {
        Ok(self.fields.priority)
    }

    /// The sequence number, if set.
    pub fn get_sequence_number(&self) -> (r: Result<Option<u64>, MessageError>)
        ensures
            r == Ok::<Option<u64>, MessageError>(self@.seq_number),
    {
        Ok(self.fields.seq_number)
    }

    /// A copy of the destination.
    pub fn get_destination(&self) -> (r: Result<Option<MessageDestination>, MessageError>)
        ensures
            r matches Ok(Some(d)) && d.dest_type == self@.destination.dest_type && d.dest@
                == self@.destination.dest@,
    {
        Ok(
            Some(
                MessageDestination {
                    dest_type: self.fields.destination.dest_type,
                    dest: self.fields.destination.dest.clone(),
                },
            ),
        )
    }

    /// The time of sending, in milliseconds since the Unix epoch, if set.
    pub fn get_sender_timestamp(&self) -> (r: Result<Option<u64>, MessageError>)
        ensures
            r == Ok::<Option<u64>, MessageError>(self@.sender_timestamp),
    {
        Ok(self.fields.sender_timestamp)
    }

    /// The user data, if set.
    pub fn get_user_data(&self) -> (r: Result<Option<&[u8]>, MessageError>)
        ensures
            r is Ok,
            r matches Ok(v) && (v is None <==> self@.user_data is None),
            r matches Ok(Some(d)) ==> d@ == self@.user_data->0@,
    {
        match &self.fields.user_data {
            Some(d) => Ok(Some(d.as_slice())),
            None => Ok(None),
        }
    }

    /// Whether the message may be elided.
    pub fn is_eliding_eligible(&self) -> (r: bool)
        ensures
            r == self@.eliding_eligible,
    {
        self.fields.eliding_eligible
    }

    /// Whether the message answers a request.
    pub fn is_reply(&self) -> (r: bool)
        ensures
            r == self@.is_reply,
    {
        self.fields.is_reply
    }
}

/// Every field set on a builder reads back unchanged from the message that
/// `build` makes of it, and every optional field left unset reads back as
/// absent (the class of service then reads as the first class).
pub proof fn lemma_fields_round_trip(u: UncheckedMessage)
    requires
        message_fault(u) is None,
    ensures
        ({
            let m = built_message(u);
            &&& u.delivery_mode == Some(m.delivery_mode)
            &&& u.destination == Some(m.destination)
            &&& u.payload == Some(m.payload)
            &&& m.correlation_id == u.correlation_id
            &&& m.seq_number == u.seq_number
            &&& m.priority == u.priority
            &&& m.application_id == u.application_id
            &&& m.application_msg_type == u.application_msg_type
            &&& m.user_data == u.user_data
            &&& m.sender_timestamp == u.sender_timestamp
            &&& m.eliding_eligible == u.eliding_eligible
            &&& m.is_reply == u.is_reply
            &&& (u.class_of_service matches Some(c) ==> effective_class_of_service(
                m.class_of_service,
            ) == c)
            &&& (u.class_of_service is None ==> effective_class_of_service(m.class_of_service)
                == ClassOfService::One)
        }),
{
}

/// Why a message received on a flow could not be acknowledged.
#[derive(Debug, Clone)]
pub enum FlowInboundMessageAckError {
    /// The engine could not read the message's id.
    InvalidMessage(SolClientSubCode),
    /// The message carries no id.
    MessageNotFound,
    /// The engine refused the acknowledgement.
    AckFailed(SolClientSubCode),
    /// The flow that delivered the message is gone.
    FlowFreedBeforeAck,
}

/// Decides, from the engine's lookup of a message's id and whether its flow
/// still exists, whether the acknowledgement can be sent, and for which id.
/// `last_error` is the engine's diagnostic record of the lookup.
pub fn ack_target(
    id_lookup: SolClientReturnCode,
    message_id: u64,
    flow_alive: bool,
    last_error: SolClientSubCode,
) -> (r: Result<u64, FlowInboundMessageAckError>)
    ensures
        id_lookup == SolClientReturnCode::NotFound ==> (r matches Err(
            FlowInboundMessageAckError::MessageNotFound,
        )),
        id_lookup != SolClientReturnCode::NotFound && id_lookup != SolClientReturnCode::Success
            ==> r == Err::<u64, FlowInboundMessageAckError>(
            FlowInboundMessageAckError::InvalidMessage(last_error),
        ),
        id_lookup == SolClientReturnCode::Success && !flow_alive ==> (r matches Err(
            FlowInboundMessageAckError::FlowFreedBeforeAck,
        )),
        id_lookup == SolClientReturnCode::Success && flow_alive ==> r == Ok::<
            u64,
            FlowInboundMessageAckError,
        >(message_id),
{
    match id_lookup {
        SolClientReturnCode::NotFound => Err(FlowInboundMessageAckError::MessageNotFound),
        SolClientReturnCode::Success => {
            if flow_alive {
                Ok(message_id)
            } else {
                Err(FlowInboundMessageAckError::FlowFreedBeforeAck)
            }
        },
        _ => Err(FlowInboundMessageAckError::InvalidMessage(last_error)),
    }
}

/// The outcome of sending an acknowledgement, from the engine's status and
/// its diagnostic record.
pub fn ack_outcome(send: SolClientReturnCode, last_error: SolClientSubCode) -> (r: Result<
    (),
    FlowInboundMessageAckError,
>)
    ensures
        send == SolClientReturnCode::Success ==> r is Ok,
        send != SolClientReturnCode::Success ==> r == Err::<(), FlowInboundMessageAckError>(
            FlowInboundMessageAckError::AckFailed(last_error),
        ),
{
    if send.is_ok() {
        Ok(())
    } else {
        Err(FlowInboundMessageAckError::AckFailed(last_error))
    }
}

} // verus!
