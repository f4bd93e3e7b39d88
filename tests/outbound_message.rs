use solace_rs::message::{
    ClassOfService, DeliveryMode, DestinationType, MessageBuilderError, MessageDestination,
    OutboundMessageBuilder,
};
use std::time::SystemTime;

fn topic() -> MessageDestination {
    MessageDestination::new(DestinationType::Topic, "test_topic").unwrap()
}

#[test]
fn it_should_build_message() {
    let dest = MessageDestination::new(DestinationType::Topic, "test_topic").unwrap();
    let _ = OutboundMessageBuilder::new()
        .delivery_mode(DeliveryMode::Direct)
        .destination(dest)
        .payload(b"Hello")
        .build()
        .unwrap();
}

#[test]
fn it_should_build_with_eliding_eligible() {
    let non_elided_msg = OutboundMessageBuilder::new()
        .delivery_mode(DeliveryMode::Direct)
        .destination(topic())
        .payload(b"Hello")
        .eliding_eligible(false)
        .build()
        .unwrap();
    assert!(!non_elided_msg.is_eliding_eligible());

    let elided_msg = OutboundMessageBuilder::new()
        .delivery_mode(DeliveryMode::Direct)
        .destination(topic())
        .payload(b"Hello")
        .eliding_eligible(true)
        .build()
        .unwrap();
    assert!(elided_msg.is_eliding_eligible());
}

#[test]
fn it_should_build_with_is_reply() {
    let non_reply_msg = OutboundMessageBuilder::new()
        .delivery_mode(DeliveryMode::Direct)
        .destination(topic())
        .payload(b"Hello")
        .is_reply(false)
        .build()
        .unwrap();
    assert!(!non_reply_msg.is_reply());

    let reply_msg = OutboundMessageBuilder::new()
        .delivery_mode(DeliveryMode::Direct)
        .destination(topic())
        .payload(b"Hello")
        .is_reply(true)
        .build()
        .unwrap();
    assert!(reply_msg.is_reply());
}

#[test]
fn it_should_build_with_same_topic() {
    let message = OutboundMessageBuilder::new()
        .delivery_mode(DeliveryMode::Direct)
        .destination(topic())
        .payload(b"Hello")
        .build()
        .unwrap();
    let message_destination = message.get_destination().unwrap().unwrap();
    assert!("test_topic" == message_destination.dest);
    assert_eq!(message_destination.dest_type, DestinationType::Topic);
}

#[test]
fn it_should_build_with_same_corralation_id() {
    let message = OutboundMessageBuilder::new()
        .delivery_mode(DeliveryMode::Direct)
        .destination(topic())
        .correlation_id("test_correlation")
        .payload(b"Hello")
        .build()
        .unwrap();
    let correlation_id = message.get_correlation_id().unwrap().unwrap();
    assert!("test_correlation" == correlation_id);
}

#[test]
fn it_should_build_have_valid_exp() {
    let message = OutboundMessageBuilder::new()
        .delivery_mode(DeliveryMode::Direct)
        .destination(topic())
        .payload(b"Hello")
        .build()
        .unwrap();
    assert!(0 == message.get_expiration());
}

#[test]
fn it_should_build_with_same_cos() {
    let message = OutboundMessageBuilder::new()
        .delivery_mode(DeliveryMode::Direct)
        .destination(topic())
        .class_of_service(ClassOfService::Two)
        .payload(b"Hello")
        .build()
        .unwrap();
    assert!(ClassOfService::Two == message.get_class_of_service().unwrap());
}

#[test]
fn it_should_build_with_same_seq_num() {
    let message = OutboundMessageBuilder::new()
        .delivery_mode(DeliveryMode::Direct)
        .destination(topic())
        .seq_number(45)
        .payload(b"Hello")
        .build()
        .unwrap();
    assert!(45 == message.get_sequence_number().unwrap().unwrap());
}

#[test]
fn it_should_build_with_same_priority() {
    let message = OutboundMessageBuilder::new()
        .delivery_mode(DeliveryMode::Direct)
        .destination(topic())
        .priority(3)
        .payload(b"Hello")
        .build()
        .unwrap();
    assert!(3 == message.get_priority().unwrap().unwrap());

    let message = OutboundMessageBuilder::new()
        .delivery_mode(DeliveryMode::Direct)
        .destination(topic())
        .payload(b"Hello")
        .build()
        .unwrap();
    assert!(message.get_priority().unwrap().is_none());
}

#[test]
fn it_should_build_with_same_application_id() {
    let message = OutboundMessageBuilder::new()
        .delivery_mode(DeliveryMode::Direct)
        .destination(topic())
        .application_id("test_id")
        .payload(b"Hello")
        .build()
        .unwrap();
    assert!(Some("test_id") == message.get_application_message_id());

    let message = OutboundMessageBuilder::new()
        .delivery_mode(DeliveryMode::Direct)
        .destination(topic())
        .payload(b"Hello")
        .build()
        .unwrap();
    assert!(message.get_application_message_id().is_none());
}

#[test]
fn it_should_build_with_same_application_msg_type() {
    let message = OutboundMessageBuilder::new()
        .delivery_mode(DeliveryMode::Direct)
        .destination(topic())
        .application_msg_type("test_id")
        .payload(b"Hello")
        .build()
        .unwrap();
    assert!(Some("test_id") == message.get_application_msg_type());

    let message = OutboundMessageBuilder::new()
        .delivery_mode(DeliveryMode::Direct)
        .destination(topic())
        .payload(b"Hello")
        .build()
        .unwrap();
    assert!(message.get_application_msg_type().is_none());
}

#[test]
fn it_should_build_with_same_string_payload() {
    let message = OutboundMessageBuilder::new()
        .delivery_mode(DeliveryMode::Direct)
        .destination(topic())
        .payload(b"Hello")
        .build()
        .unwrap();
    let raw_payload = message.get_payload().unwrap().unwrap();
    assert!(b"Hello" == raw_payload);
}

#[test]
fn it_should_build_with_same_user_data() {
    let message = OutboundMessageBuilder::new()
        .delivery_mode(DeliveryMode::Direct)
        .destination(topic())
        .payload(b"Hello")
        .user_data(&32_u32.to_be_bytes())
        .build()
        .unwrap();
    let raw_user_data = message.get_user_data().unwrap().unwrap();
    assert!(32_u32.to_be_bytes() == raw_user_data);
}

#[test]
fn it_should_build_with_same_sender_timestamp() {
    let now = SystemTime::now();
    let now_ms = now.duration_since(SystemTime::UNIX_EPOCH).unwrap().as_millis() as u64;
    let message = OutboundMessageBuilder::new()
        .delivery_mode(DeliveryMode::Direct)
        .destination(topic())
        .payload(b"Hello")
        .sender_timestamp(now_ms)
        .build()
        .unwrap();
    let ts = message.get_sender_timestamp().unwrap().unwrap();
    assert!(now_ms == ts);
}

#[test]
fn unset_fields_read_back_absent() {
    let message = OutboundMessageBuilder::new()
        .delivery_mode(DeliveryMode::Persistent)
        .destination(topic())
        .payload(b"Hello")
        .build()
        .unwrap();
    assert_eq!(message.get_delivery_mode(), DeliveryMode::Persistent);
    assert!(message.get_correlation_id().unwrap().is_none());
    assert!(message.get_sequence_number().unwrap().is_none());
    assert!(message.get_user_data().unwrap().is_none());
    assert!(message.get_sender_timestamp().unwrap().is_none());
    assert_eq!(message.get_class_of_service().unwrap(), ClassOfService::One);
    assert!(!message.is_reply());
    assert!(!message.is_eliding_eligible());
}

#[test]
fn every_field_round_trips() {
    let message = OutboundMessageBuilder::new()
        .delivery_mode(DeliveryMode::NonPersistent)
        .destination(MessageDestination::new(DestinationType::Queue, "q1").unwrap())
        .payload(&[0, 1, 2, 255])
        .correlation_id("corr")
        .class_of_service(ClassOfService::Three)
        .seq_number(u64::MAX)
        .priority(255)
        .application_id("app")
        .application_msg_type("kind")
        .user_data(&[7; 36])
        .sender_timestamp(1_700_000_000_123)
        .eliding_eligible(true)
        .is_reply(true)
        .build()
        .unwrap();
    assert_eq!(message.get_payload().unwrap().unwrap(), &[0, 1, 2, 255]);
    let dest = message.get_destination().unwrap().unwrap();
    assert_eq!(dest.dest, "q1");
    assert_eq!(dest.dest_type, DestinationType::Queue);
    assert_eq!(message.get_correlation_id().unwrap(), Some("corr"));
    assert_eq!(message.get_class_of_service().unwrap(), ClassOfService::Three);
    assert_eq!(message.get_sequence_number().unwrap(), Some(u64::MAX));
    assert_eq!(message.get_priority().unwrap(), Some(255));
    assert_eq!(message.get_application_message_id(), Some("app"));
    assert_eq!(message.get_application_msg_type(), Some("kind"));
    assert_eq!(message.get_user_data().unwrap().unwrap(), &[7; 36]);
    assert_eq!(message.get_sender_timestamp().unwrap(), Some(1_700_000_000_123));
    assert!(message.is_eliding_eligible());
    assert!(message.is_reply());
}

#[test]
fn missing_delivery_mode_is_refused_first() {
    let err = OutboundMessageBuilder::new().build().err().unwrap();
    assert_eq!(err, MessageBuilderError::MissingRequiredArgs("delivery_mode".to_string()));
}

#[test]
fn missing_destination_is_refused() {
    let err = OutboundMessageBuilder::new()
        .delivery_mode(DeliveryMode::Direct)
        .payload(b"Hello")
        .build()
        .err()
        .unwrap();
    assert_eq!(err, MessageBuilderError::MissingRequiredArgs("destination".to_string()));
}

#[test]
fn missing_payload_is_refused() {
    let err = OutboundMessageBuilder::new()
        .delivery_mode(DeliveryMode::Direct)
        .destination(topic())
        .build()
        .err()
        .unwrap();
    assert_eq!(err, MessageBuilderError::MissingRequiredArgs("payload".to_string()));
}

#[test]
fn oversized_user_data_is_refused() {
    let err = OutboundMessageBuilder::new()
        .delivery_mode(DeliveryMode::Direct)
        .destination(topic())
        .payload(b"Hello")
        .user_data(&[1; 37])
        .build()
        .err()
        .unwrap();
    assert_eq!(err, MessageBuilderError::SizeErrorArgs("user_data".to_string(), 36, 37));
}

#[test]
fn nul_in_correlation_id_is_refused() {
    let err = OutboundMessageBuilder::new()
        .delivery_mode(DeliveryMode::Direct)
        .destination(topic())
        .payload(b"Hello")
        .correlation_id("a\0b")
        .build()
        .err()
        .unwrap();
    assert_eq!(err, MessageBuilderError::InvalidArgs("correlation_id".to_string()));
}

#[test]
fn timestamp_beyond_signed_millis_is_refused() {
    let err = OutboundMessageBuilder::new()
        .delivery_mode(DeliveryMode::Direct)
        .destination(topic())
        .payload(b"Hello")
        .sender_timestamp(i64::MAX as u64 + 1)
        .build()
        .err()
        .unwrap();
    assert_eq!(err, MessageBuilderError::TimestampError);
}

#[test]
fn nul_in_destination_is_refused() {
    assert!(MessageDestination::new(DestinationType::Topic, "a\0").is_err());
}

#[test]
fn raw_numbers_of_message_enums() {
    assert_eq!(DeliveryMode::Persistent.to_u32(), 0x10);
    assert_eq!(DeliveryMode::from_u32(0x20), Some(DeliveryMode::NonPersistent));
    assert_eq!(DeliveryMode::from_u32(1), None);
    assert_eq!(ClassOfService::Two.to_u32(), 1);
    assert_eq!(ClassOfService::from_u32(3), None);
    assert_eq!(DestinationType::Topic.to_i32(), 0);
    assert_eq!(DestinationType::QueueTemp.to_i32(), 3);
    assert_eq!(DestinationType::from_i32(1), DestinationType::Queue);
    assert_eq!(DestinationType::from_i32(42), DestinationType::Null);
}
