use solace_rs::event::{FlowEvent, SessionEvent};
use solace_rs::operation::{
    cache_request_flags, context_init_outcome, operation_outcome, provision_flags, topic_text,
    ContextError, SessionError, SessionOperation,
};
use solace_rs::message::{ack_outcome, ack_target, FlowInboundMessageAckError};
use solace_rs::return_code::{SolClientReturnCode, SolClientSubCode, SolaceLogLevel};
use solace_rs::text::{decimal_i64, decimal_u64, flag_string, native_text};

fn subcode() -> SolClientSubCode {
    SolClientSubCode { subcode: 7, error_string: "bad".to_string() }
}

#[test]
fn return_codes_map_both_ways() {
    assert_eq!(SolClientReturnCode::from_raw(0), SolClientReturnCode::Success);
    assert_eq!(SolClientReturnCode::from_raw(5), SolClientReturnCode::NotFound);
    assert_eq!(SolClientReturnCode::from_raw(8), SolClientReturnCode::Rollback);
    assert_eq!(SolClientReturnCode::from_raw(-1), SolClientReturnCode::Fail);
    assert_eq!(SolClientReturnCode::Rollback.to_raw(), 8);
    assert_eq!(SolClientReturnCode::Fail.to_raw(), -1);
    assert!(SolClientReturnCode::Success.is_ok());
    assert!(!SolClientReturnCode::WouldBlock.is_ok());
}

#[test]
fn unknown_return_code_is_fail() {
    assert_eq!(SolClientReturnCode::from_raw(9), SolClientReturnCode::Fail);
    assert_eq!(SolClientReturnCode::from_raw(i32::MIN), SolClientReturnCode::Fail);
    assert!(!SolClientReturnCode::from_raw(1234).is_ok());
}

#[test]
fn return_code_descriptions() {
    assert_eq!(SolClientReturnCode::Fail.description(), "Fail - The API call failed.");
    assert_eq!(SolClientReturnCode::Success.description(), "Ok - The API call was successful.");
}

#[test]
fn log_levels() {
    assert_eq!(SolaceLogLevel::Critical.to_u32(), 2);
    assert_eq!(SolaceLogLevel::from_u32(7), Some(SolaceLogLevel::Debug));
    assert_eq!(SolaceLogLevel::from_u32(8), None);
}

#[test]
fn events_from_engine_numbers() {
    assert_eq!(SessionEvent::from_u32(0), Some(SessionEvent::UpNotice));
    assert_eq!(SessionEvent::from_u32(20), Some(SessionEvent::RepublishUnackedMessages));
    assert_eq!(SessionEvent::from_u32(21), None);
    assert_eq!(SessionEvent::CanSend.to_u32(), 11);
    assert_eq!(FlowEvent::from_u32(5), Some(FlowEvent::Active));
    assert_eq!(FlowEvent::from_u32(9), None);
    assert_eq!(FlowEvent::Reconnected.to_u32(), 8);
}

#[test]
fn ack_after_flow_is_gone_fails_cleanly() {
    let r = ack_target(SolClientReturnCode::Success, 42, false, subcode());
    assert!(matches!(r, Err(FlowInboundMessageAckError::FlowFreedBeforeAck)));
}

#[test]
fn ack_decisions() {
    assert_eq!(ack_target(SolClientReturnCode::Success, 42, true, subcode()).unwrap(), 42);
    assert!(matches!(
        ack_target(SolClientReturnCode::NotFound, 42, true, subcode()),
        Err(FlowInboundMessageAckError::MessageNotFound)
    ));
    match ack_target(SolClientReturnCode::Fail, 42, true, subcode()) {
        Err(FlowInboundMessageAckError::InvalidMessage(s)) => assert_eq!(s.subcode, 7),
        _ => panic!("expected an invalid message"),
    }
    assert!(ack_outcome(SolClientReturnCode::Success, subcode()).is_ok());
    match ack_outcome(SolClientReturnCode::NotReady, subcode()) {
        Err(FlowInboundMessageAckError::AckFailed(s)) => assert_eq!(s.error_string, "bad"),
        _ => panic!("expected a failed acknowledgement"),
    }
}

#[test]
fn decimal_text() {
    assert_eq!(decimal_u64(0), "0");
    assert_eq!(decimal_u64(1024), "1024");
    assert_eq!(decimal_u64(u64::MAX), "18446744073709551615");
    assert_eq!(decimal_i64(-1), "-1");
    assert_eq!(decimal_i64(i64::MIN), "-9223372036854775808");
    assert_eq!(decimal_i64(i64::MAX), "9223372036854775807");
    assert_eq!(flag_string(true), "1");
    assert_eq!(flag_string(false), "0");
}

#[test]
fn native_text_rejects_nul() {
    assert!(native_text("hello"));
    assert!(native_text(""));
    assert!(!native_text("he\0llo"));
}

#[test]
fn operation_outcomes_carry_code_and_record() {
    assert!(operation_outcome(SessionOperation::Publish, 0, subcode()).is_ok());
    match operation_outcome(SessionOperation::Subscribe("t/1".to_string()), -1, subcode()) {
        Err(SessionError::SubscriptionFailure(topic, rc, s)) => {
            assert_eq!(topic, "t/1");
            assert_eq!(rc, SolClientReturnCode::Fail);
            assert_eq!(s.subcode, 7);
        }
        _ => panic!("expected a subscription failure"),
    }
    match operation_outcome(SessionOperation::Request, 1, subcode()) {
        Err(SessionError::RequestError(rc, _)) => assert_eq!(rc, SolClientReturnCode::WouldBlock),
        _ => panic!("expected a request error"),
    }
    assert!(matches!(
        operation_outcome(SessionOperation::Connect, 77, subcode()),
        Err(SessionError::ConnectionFailure(SolClientReturnCode::Fail, _))
    ));
}

#[test]
fn provision_flags_and_topics() {
    assert_eq!(provision_flags(false), 1);
    assert_eq!(provision_flags(true), 3);
    assert_eq!(topic_text("a/b").unwrap(), "a/b");
    assert!(matches!(topic_text("a\0b"), Err(SessionError::InvalidArgs(f)) if f == "topic"));
}

#[test]
fn context_and_cache_request_decisions() {
    assert!(context_init_outcome(0).is_ok());
    assert_eq!(
        context_init_outcome(-1).err().unwrap(),
        ContextError::InitializationFailed(SolClientReturnCode::Fail)
    );
    assert_eq!(cache_request_flags(true), 0x08);
    assert_eq!(cache_request_flags(false), 0x09);
}
