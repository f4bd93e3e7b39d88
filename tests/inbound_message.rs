use solace_rs::inbound::{read_field, InboundMessage, ReceivedFields};
use solace_rs::return_code::SolClientReturnCode;
use solace_rs::message::{ClassOfService, DestinationType, MessageDestination, MessageError};

fn fields() -> ReceivedFields {
    ReceivedFields {
        payload: Some(b"Hello".to_vec()),
        destination: Some(MessageDestination {
            dest_type: DestinationType::Topic,
            dest: "test_topic".to_string(),
        }),
        correlation_id: Some(b"corr".to_vec()),
        class_of_service: 1,
        seq_number: Some(9),
        priority: -1,
        application_id: None,
        application_msg_type: Some(b"kind".to_vec()),
        user_data: None,
        sender_timestamp: Some(1_000),
        receive_timestamp: None,
        sender_id: Some(vec![0xff, 0xfe]),
        expiration: 0,
        discard_indication: true,
        cache_request_id: Some(3),
        is_reply: false,
    }
}

#[test]
fn received_fields_read_back() {
    let m = InboundMessage::from_fields(fields());
    assert_eq!(m.get_payload().unwrap(), Some(&b"Hello"[..]));
    let d = m.get_destination().unwrap().unwrap();
    assert_eq!(d.dest, "test_topic");
    assert_eq!(d.dest_type, DestinationType::Topic);
    assert_eq!(m.get_correlation_id().unwrap(), Some("corr"));
    assert_eq!(m.get_class_of_service().unwrap(), ClassOfService::Two);
    assert_eq!(m.get_sequence_number().unwrap(), Some(9));
    assert_eq!(m.get_priority().unwrap(), None);
    assert_eq!(m.get_application_message_id(), None);
    assert_eq!(m.get_application_msg_type(), Some("kind"));
    assert_eq!(m.get_user_data().unwrap(), None);
    assert_eq!(m.get_sender_timestamp().unwrap(), Some(1_000));
    assert_eq!(m.get_receive_timestamp().unwrap(), None);
    assert_eq!(m.get_expiration(), 0);
    assert!(m.is_discard_indication());
    assert_eq!(m.get_cache_request_id().unwrap(), Some(3));
    assert!(!m.is_reply());
}

#[test]
fn text_that_is_not_utf8_is_a_conversion_error() {
    let m = InboundMessage::from_fields(fields());
    assert_eq!(m.get_sender_id().unwrap_err(), MessageError::FieldConvertionError("sender_id"));
}

#[test]
fn unknown_class_of_service_is_a_conversion_error() {
    let mut f = fields();
    f.class_of_service = 7;
    let m = InboundMessage::from_fields(f);
    assert_eq!(
        m.get_class_of_service().unwrap_err(),
        MessageError::FieldConvertionError("ClassOfService")
    );
}

#[test]
fn priority_and_timestamp_ranges() {
    let mut f = fields();
    f.priority = 4;
    f.receive_timestamp = Some(-5);
    let m = InboundMessage::from_fields(f);
    assert_eq!(m.get_priority().unwrap(), Some(4));
    assert_eq!(
        m.get_receive_timestamp().unwrap_err(),
        MessageError::FieldConvertionError("receive_timestamp")
    );
    let mut f = fields();
    f.priority = 300;
    let m = InboundMessage::from_fields(f);
    assert_eq!(m.get_priority().unwrap_err(), MessageError::FieldConvertionError("priority"));
}

#[test]
fn field_reads_map_engine_status() {
    assert_eq!(read_field("priority", 0, 5u8), Ok(Some(5)));
    assert_eq!(read_field("priority", 5, 5u8), Ok(None));
    assert_eq!(
        read_field("priority", -1, 5u8),
        Err(MessageError::FieldError("priority", SolClientReturnCode::Fail))
    );
    assert_eq!(
        read_field("payload", 3, ()),
        Err(MessageError::FieldError("payload", SolClientReturnCode::NotReady))
    );
}
