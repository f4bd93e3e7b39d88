//! Messages received from the engine: the raw field values it reports, and
//! typed accessors that read them as the outbound side wrote them.
use crate::message::{ClassOfService, MessageDestination, MessageError};
use crate::return_code::{return_code_of, SolClientReturnCode};
use vstd::prelude::*;
use vstd::utf8::{decode_utf8, valid_utf8};

verus! {

/// Relies on `std::str::from_utf8`: it accepts exactly the valid UTF-8 byte
/// sequences, and then borrows them as the text they encode.
#[verifier::external_body]
fn utf8_text<'a>(bytes: &'a [u8]) -> (r: Option<&'a str>)
    ensures
        r is Some <==> valid_utf8(bytes@),
        r matches Some(s) ==> s@ == decode_utf8(bytes@),
{
    std::str::from_utf8(bytes).ok()
}

/// A field of a received message as the engine's read of it reports it: the
/// value on success, absent where the engine did not find it, and otherwise
/// a field error with the read's code.
pub fn read_field<T>(name: &'static str, status: i32, value: T) -> (r: Result<
    Option<T>,
    MessageError,
>)
    ensures
        return_code_of(status as int) == SolClientReturnCode::Success ==> r == Ok::<
            Option<T>,
            MessageError,
        >(Some(value)),
        return_code_of(status as int) == SolClientReturnCode::NotFound ==> r == Ok::<
            Option<T>,
            MessageError,
        >(None),
        return_code_of(status as int) != SolClientReturnCode::Success && return_code_of(
            status as int,
        ) != SolClientReturnCode::NotFound ==> r == Err::<Option<T>, MessageError>(
            MessageError::FieldError(name, return_code_of(status as int)),
        ),
{
    let code = SolClientReturnCode::from_raw(status);
    match code {
        SolClientReturnCode::Success => Ok(Some(value)),
        SolClientReturnCode::NotFound => Ok(None),
        _ => Err(MessageError::FieldError(name, code)),
    }
}

/// The field values that the engine reports for a received message, as raw
/// as it reports them: texts as bytes, the class of service as its number,
/// a missing priority as -1, timestamps as signed milliseconds since the Unix
/// epoch. An absent field is `None`; `read_field` turns each of the engine's
/// reads into such a value or a field error.
#[derive(Debug, Clone, PartialEq, Eq)]
pub struct ReceivedFields {
    pub payload: Option<Vec<u8>>,
    pub destination: Option<MessageDestination>,
    pub correlation_id: Option<Vec<u8>>,
    pub class_of_service: u32,
    pub seq_number: Option<u64>,
    pub priority: i32,
    pub application_id: Option<Vec<u8>>,
    pub application_msg_type: Option<Vec<u8>>,
    pub user_data: Option<Vec<u8>>,
    pub sender_timestamp: Option<i64>,
    pub receive_timestamp: Option<i64>,
    pub sender_id: Option<Vec<u8>>,
    pub expiration: i64,
    pub discard_indication: bool,
    pub cache_request_id: Option<u64>,
    pub is_reply: bool,
}

/// A message that the engine delivered to a session or a flow callback.
pub struct InboundMessage {
    fields: ReceivedFields,
}

impl View for InboundMessage {
    type V = ReceivedFields;

    closed spec fn view(&self) -> ReceivedFields {
        self.fields
    }
}

/// How a text field reads: absent, the text it encodes, or a conversion
/// error when its bytes are not UTF-8.
pub open spec fn text_field_ok(
    r: Result<Option<&str>, MessageError>,
    raw: Option<Vec<u8>>,
    name: &str,
) -> bool {
    match raw {
        None => r matches Ok(None),
        Some(b) => if valid_utf8(b@) {
            r matches Ok(Some(s)) && s@ == decode_utf8(b@)
        } else {
            r matches Err(MessageError::FieldConvertionError(n)) && n@ == name@
        },
    }
}

/// How a timestamp field reads: absent, its milliseconds, or a conversion
/// error when it lies before the Unix epoch.
pub open spec fn timestamp_field_ok(
    r: Result<Option<u64>, MessageError>,
    raw: Option<i64>,
    name: &str,
) -> bool {
    match raw {
        None => r matches Ok(None),
        Some(t) => if t >= 0 {
            r matches Ok(Some(v)) && v == t
        } else {
            r matches Err(MessageError::FieldConvertionError(n)) && n@ == name@
        },
    }
}

fn read_text<'a>(raw: &'a Option<Vec<u8>>, name: &'static str) -> (r: Result<
    Option<&'a str>,
    MessageError,
>)
    ensures
        text_field_ok(r, *raw, name),
{
    match raw {
        None => Ok(None),
        Some(b) => match utf8_text(b.as_slice()) {
            Some(s) => Ok(Some(s)),
            None => Err(MessageError::FieldConvertionError(name)),
        },
    }
}

fn read_timestamp(raw: Option<i64>, name: &'static str) -> (r: Result<Option<u64>, MessageError>)
    ensures
        timestamp_field_ok(r, raw, name),
{
    match raw {
        None => Ok(None),
        Some(t) => if t >= 0 {
            Ok(Some(t as u64))
        } else {
            Err(MessageError::FieldConvertionError(name))
        },
    }
}

impl InboundMessage {
    /// The message whose fields the engine reported.
    pub fn from_fields(fields: ReceivedFields) -> (r: Self)
        ensures
            r@ == fields,
    {
        InboundMessage { fields }
    }

    /// The payload bytes, if any.
    pub fn get_payload(&self) -> (r: Result<Option<&[u8]>, MessageError>)
        ensures
            r is Ok,
            r matches Ok(v) && (v is None <==> self@.payload is None),
            r matches Ok(Some(p)) ==> p@ == self@.payload->0@,
    {
        match &self.fields.payload {
            Some(p) => Ok(Some(p.as_slice())),
            None => Ok(None),
        }
    }

    /// The user data, if any.
    pub fn get_user_data(&self) -> (r: Result<Option<&[u8]>, MessageError>)
        ensures
            r is Ok,
            r matches Ok(v) && (v is None <==> self@.user_data is None),
            r matches Ok(Some(d)) ==> d@ == self@.user_data->0@,
    {
        match &self.fields.user_data {
            Some(d) => Ok(Some(d.as_slice())),
            None => Ok(None),
        }
    }

    /// A copy of the destination, if any.
    pub fn get_destination(&self) -> (r: Result<Option<MessageDestination>, MessageError>)
        ensures
            r is Ok,
            r matches Ok(v) && (v is None <==> self@.destination is None),
            r matches Ok(Some(d)) ==> d.dest_type == self@.destination->0.dest_type && d.dest@
                == self@.destination->0.dest@,
    {
        match &self.fields.destination {
            Some(d) => Ok(
                Some(MessageDestination { dest_type: d.dest_type, dest: d.dest.clone() }),
            ),
            None => Ok(None),
        }
    }

    /// The correlation id, if any; an error when it is not UTF-8.
    pub fn get_correlation_id(&self) -> (r: Result<Option<&str>, MessageError>)
        ensures
            text_field_ok(r, self@.correlation_id, "correlation_id"),
    {
        read_text(&self.fields.correlation_id, "correlation_id")
    }

    /// The sender's id, if any; an error when it is not UTF-8.
    pub fn get_sender_id(&self) -> (r: Result<Option<&str>, MessageError>)
        ensures
            text_field_ok(r, self@.sender_id, "sender_id"),
    {
        read_text(&self.fields.sender_id, "sender_id")
    }

    /// The application's id for the message, if it is present and UTF-8.
    pub fn get_application_message_id(&self) -> (r: Option<&str>)
        ensures
            r is Some <==> (self@.application_id matches Some(b) && valid_utf8(b@)),
            r matches Some(s) ==> s@ == decode_utf8(self@.application_id->0@),
    {
        match read_text(&self.fields.application_id, "application_id") {
            Ok(v) => v,
            Err(_) => None,
        }
    }

    /// The application's type for the message, if it is present and UTF-8.
    pub fn get_application_msg_type(&self) -> (r: Option<&str>)
        ensures
            r is Some <==> (self@.application_msg_type matches Some(b) && valid_utf8(b@)),
            r matches Some(s) ==> s@ == decode_utf8(self@.application_msg_type->0@),
    {
        match read_text(&self.fields.application_msg_type, "application_msg_type") {
            Ok(v) => v,
            Err(_) => None,
        }
    }

    /// The class of service; an error when the engine's number is unknown.
    pub fn get_class_of_service(&self) -> (r: Result<ClassOfService, MessageError>)
        ensures
            self@.class_of_service <= 2 ==> (r matches Ok(c)
                && crate::message::class_of_service_raw(c) == self@.class_of_service as int),
            self@.class_of_service > 2 ==> (r matches Err(MessageError::FieldConvertionError(n))
                && n@ == "ClassOfService"@),
    {
        match ClassOfService::from_u32(self.fields.class_of_service) {
            Some(c) => Ok(c),
            None => Err(MessageError::FieldConvertionError("ClassOfService")),
        }
    }

    /// The priority; absent where the engine reports -1, an error where it
    /// reports another number outside 0 to 255.
    pub fn get_priority(&self) -> (r: Result<Option<u8>, MessageError>)
        ensures
            self@.priority == -1 ==> (r matches Ok(None)),
            0 <= self@.priority <= 255 ==> (r matches Ok(Some(p)) && p == self@.priority),
            (self@.priority < -1 || self@.priority > 255) ==> (r matches Err(
                MessageError::FieldConvertionError(n),
            ) && n@ == "priority"@),
    {
        let p = self.fields.priority;
        if p == -1 {
            Ok(None)
        } else if 0 <= p && p <= 255 {
            Ok(Some(p as u8))
        } else {
            Err(MessageError::FieldConvertionError("priority"))
        }
    }

    /// The sequence number, if any.
    pub fn get_sequence_number(&self) -> (r: Result<Option<u64>, MessageError>)
        ensures
            r == Ok::<Option<u64>, MessageError>(self@.seq_number),
    {
        Ok(self.fields.seq_number)
    }

    /// The time of sending in milliseconds since the Unix epoch, if any.
    pub fn get_sender_timestamp(&self) -> (r: Result<Option<u64>, MessageError>)
        ensures
            timestamp_field_ok(r, self@.sender_timestamp, "sender_timestamp"),
    {
        read_timestamp(self.fields.sender_timestamp, "sender_timestamp")
    }

    /// The time of receipt in milliseconds since the Unix epoch, if any.
    pub fn get_receive_timestamp(&self) -> (r: Result<Option<u64>, MessageError>)
        ensures
            timestamp_field_ok(r, self@.receive_timestamp, "receive_timestamp"),
    {
        read_timestamp(self.fields.receive_timestamp, "receive_timestamp")
    }

    /// The expiration time, 0 for a message that does not expire.
    pub fn get_expiration(&self) -> (r: i64)
        ensures
            r == self@.expiration,
    {
        self.fields.expiration
    }

    /// Whether the broker discarded messages before this one.
    pub fn is_discard_indication(&self) -> (r: bool)
        ensures
            r == self@.discard_indication,
    {
        self.fields.discard_indication
    }

    /// The id of the cache request that returned this message, if any.
    pub fn get_cache_request_id(&self) -> (r: Result<Option<u64>, MessageError>)
        ensures
            r == Ok::<Option<u64>, MessageError>(self@.cache_request_id),
    {
        Ok(self.fields.cache_request_id)
    }

    /// Whether the message answers a request.
    pub fn is_reply(&self) -> (r: bool)
        ensures
            r == self@.is_reply,
    {
        self.fields.is_reply
    }
}

} // verus!
