use solace_rs::cache_session::CacheSessionProps;
use solace_rs::endpoint_props::{
    EndpointAccessType, EndpointDiscardBehavior, EndpointId, EndpointPermission,
    EndpointPropsBuilder, EndpointPropsBuilderError,
};
use solace_rs::flow::{
    flow_create_outcome, FlowAckMode, FlowBindEntityDurable, FlowBindEntityId, FlowBuilder,
    FlowBuilderError,
};
use solace_rs::return_code::{SolClientReturnCode, SolClientSubCode};
use solace_rs::session::{SessionBuilder, SessionBuilderError};

fn strings(v: &[&str]) -> Vec<String> {
    v.iter().map(|s| s.to_string()).collect()
}

fn connected() -> SessionBuilder {
    SessionBuilder::new()
        .host_name("tcp://localhost:55555")
        .vpn_name("default")
        .username("default")
        .password("")
}

#[test]
fn endpoint_without_id_is_refused() {
    let err = EndpointPropsBuilder::new().durable(true).build().err().unwrap();
    assert_eq!(err, EndpointPropsBuilderError::MissingRequiredArgs("id".to_string()));
}

#[test]
fn endpoint_name_with_nul_is_refused() {
    let err = EndpointPropsBuilder::new()
        .id(EndpointId::Queue { name: "q\0".to_string() })
        .build()
        .err()
        .unwrap();
    assert_eq!(err, EndpointPropsBuilderError::InvalidArgs("id".to_string()));
}

#[test]
fn endpoint_table_holds_every_setting_in_order() {
    let props = EndpointPropsBuilder::new()
        .id(EndpointId::Queue { name: "orders".to_string() })
        .durable(true)
        .permission(EndpointPermission::Consume)
        .access_type(EndpointAccessType::NonExclusive)
        .quota_mb(100)
        .max_msg_size(1024)
        .respects_msg_ttl(false)
        .discard_behavior(EndpointDiscardBehavior::DiscardNotifySenderOn)
        .max_msg_redelivery(0)
        .build()
        .unwrap();
    assert_eq!(
        props.to_raw(),
        strings(&[
            "ENDPOINT_ID",
            "QUEUE",
            "ENDPOINT_NAME",
            "orders",
            "ENDPOINT_DURABLE",
            "1",
            "ENDPOINT_PERMISSION",
            "c",
            "ENDPOINT_ACCESSTYPE",
            "1",
            "ENDPOINT_QUOTA_MB",
            "100",
            "ENDPOINT_MAXMSG_SIZE",
            "1024",
            "ENDPOINT_RESPECTS_MSG_TTL",
            "0",
            "ENDPOINT_DISCARD_BEHAVIOR",
            "2",
            "ENDPOINT_MAXMSG_REDELIVERY",
            "0",
        ])
    );
}

#[test]
fn endpoint_table_leaves_out_unset_settings() {
    let props = EndpointPropsBuilder::new()
        .id(EndpointId::Te { name: "te".to_string() })
        .build()
        .unwrap();
    assert_eq!(props.to_raw(), strings(&["ENDPOINT_ID", "TE", "ENDPOINT_NAME", "te"]));
}

#[test]
fn keep_alive_limit_below_three_is_refused() {
    let err = connected().keep_alive_limit(1).build().err().unwrap();
    assert_eq!(
        err,
        SessionBuilderError::InvalidRange(
            "keep_alive_limit".to_string(),
            "3".to_string(),
            "1".to_string()
        )
    );
}

#[test]
fn session_without_host_is_refused() {
    let err = SessionBuilder::new().vpn_name("default").build().err().unwrap();
    assert_eq!(err, SessionBuilderError::MissingRequiredArgs("host_name".to_string()));
}

#[test]
fn session_password_with_nul_is_refused() {
    let err = SessionBuilder::new()
        .host_name("h")
        .vpn_name("v")
        .username("u")
        .password("p\0")
        .build()
        .err()
        .unwrap();
    assert_eq!(err, SessionBuilderError::InvalidArgs("password".to_string()));
}

#[test]
fn session_ranges_are_checked() {
    let range = |b: SessionBuilder| b.build().err().unwrap();
    assert_eq!(
        range(connected().compression_level(10)),
        SessionBuilderError::InvalidRange(
            "compression_level".to_string(),
            "<= 9".to_string(),
            "10".to_string()
        )
    );
    assert_eq!(
        range(connected().socket_send_buf_size_bytes(1023)),
        SessionBuilderError::InvalidRange(
            "socket_send_buf_size_bytes".to_string(),
            "0 or >= 1024".to_string(),
            "1023".to_string()
        )
    );
    assert_eq!(
        range(connected().connect_retries(-2)),
        SessionBuilderError::InvalidRange(
            "connect_retries".to_string(),
            "-1".to_string(),
            "-2".to_string()
        )
    );
    assert_eq!(
        range(connected().subconfirm_timeout_ms(999)),
        SessionBuilderError::InvalidRange(
            "subconfirm_timeout_ms".to_string(),
            "1000".to_string(),
            "999".to_string()
        )
    );
}

#[test]
fn session_bounds_themselves_are_accepted() {
    let props = connected()
        .keep_alive_limit(3)
        .compression_level(9)
        .socket_rcv_buf_size_bytes(0)
        .keep_alive_interval_ms(50)
        .reconnect_retries(-1)
        .buffer_size_bytes(1)
        .build();
    assert!(props.is_ok());
}

#[test]
fn session_table_starts_with_required_settings() {
    let props = connected()
        .client_name("me")
        .keep_alive_limit(3)
        .compression_level(9)
        .connect_retries_per_host(-1)
        .no_local(true)
        .build()
        .unwrap();
    assert_eq!(
        props.to_raw(),
        strings(&[
            "SESSION_HOST",
            "tcp://localhost:55555",
            "SESSION_VPN_NAME",
            "default",
            "SESSION_USERNAME",
            "default",
            "SESSION_PASSWORD",
            "",
            "SESSION_CONNECT_BLOCKING",
            "1",
            "SESSION_KEEP_ALIVE_LIMIT",
            "3",
            "SESSION_CLIENT_NAME",
            "me",
            "SESSION_COMPRESSION_LEVEL",
            "9",
            "SESSION_CONNECT_RETRIES_PER_HOST",
            "-1",
            "SESSION_NO_LOCAL",
            "1",
        ])
    );
}

#[test]
fn flow_table_with_non_durable_endpoint() {
    let endpoint = EndpointPropsBuilder::new()
        .id(EndpointId::Queue { name: "tmp".to_string() })
        .build()
        .unwrap();
    let props = FlowBuilder::new()
        .bind_entity_id(FlowBindEntityId::Queue { queue_name: "tmp".to_string() })
        .bind_entity_durable(FlowBindEntityDurable::NonDurable { endpoint_props: endpoint })
        .ack_mode(FlowAckMode::Client)
        .window_size(255)
        .ack_threshold(60)
        .build()
        .unwrap();
    assert_eq!(
        props.to_raw(),
        strings(&[
            "FLOW_BIND_ENTITY_ID",
            "2",
            "FLOW_BIND_NAME",
            "tmp",
            "FLOW_BIND_ENTITY_DURABLE",
            "0",
            "ENDPOINT_ID",
            "QUEUE",
            "ENDPOINT_NAME",
            "tmp",
            "FLOW_WINDOWSIZE",
            "255",
            "FLOW_ACKMODE",
            "2",
            "FLOW_ACK_THRESHOLD",
            "60",
        ])
    );
}

#[test]
fn flow_subscription_bind_has_no_name() {
    let props = FlowBuilder::new()
        .bind_entity_id(FlowBindEntityId::Sub)
        .topic("a/b")
        .build()
        .unwrap();
    assert_eq!(
        props.to_raw(),
        strings(&["FLOW_BIND_ENTITY_ID", "1", "FLOW_TOPIC", "a/b"])
    );
}

#[test]
fn flow_text_with_nul_is_refused() {
    let err = FlowBuilder::new().selector("x\0").build().err().unwrap();
    assert_eq!(err, FlowBuilderError::InvalidArgs("selector".to_string()));
    let err = FlowBuilder::new()
        .bind_entity_id(FlowBindEntityId::Te { topic_endpoint_name: "\0".to_string() })
        .selector("x\0")
        .build()
        .err()
        .unwrap();
    assert_eq!(err, FlowBuilderError::InvalidArgs("bind_entity_id".to_string()));
}

#[test]
fn cache_session_defaults() {
    let props = CacheSessionProps::new("cache1", None, Some(60), None).unwrap();
    assert_eq!(
        props.to_raw(),
        strings(&[
            "CACHESESSION_CACHE_NAME",
            "cache1",
            "CACHESESSION_DEFAULT_MAX_MSGS",
            "1",
            "CACHESESSION_MAX_AGE",
            "60",
            "CACHESESSION_RR_TIMEOUT_MS",
            "10000",
        ])
    );
    assert!(CacheSessionProps::new("c\0", None, None, None).is_err());
}

#[test]
fn flow_window_size_out_of_range_is_refused() {
    let err = FlowBuilder::new().window_size(0).build().err().unwrap();
    assert_eq!(
        err,
        FlowBuilderError::InvalidRange(
            "window_size".to_string(),
            "1 to 255".to_string(),
            "0".to_string()
        )
    );
    let err = FlowBuilder::new().window_size(256).build().err().unwrap();
    assert_eq!(
        err,
        FlowBuilderError::InvalidRange(
            "window_size".to_string(),
            "1 to 255".to_string(),
            "256".to_string()
        )
    );
    assert!(FlowBuilder::new().window_size(1).build().is_ok());
    assert!(FlowBuilder::new().window_size(255).build().is_ok());
}

#[test]
fn flow_ranges_are_checked_in_order() {
    let range = |b: FlowBuilder| b.build().err().unwrap();
    assert_eq!(
        range(FlowBuilder::new().bind_timeout_ms(0).window_size(0)),
        FlowBuilderError::InvalidRange(
            "bind_timeout_ms".to_string(),
            "1".to_string(),
            "0".to_string()
        )
    );
    assert_eq!(
        range(FlowBuilder::new().max_bind_tries(0)),
        FlowBuilderError::InvalidRange("max_bind_tries".to_string(), "1".to_string(), "0".to_string())
    );
    assert_eq!(
        range(FlowBuilder::new().ack_timer_ms(19)),
        FlowBuilderError::InvalidRange(
            "ack_timer_ms".to_string(),
            "20 to 1500".to_string(),
            "19".to_string()
        )
    );
    assert_eq!(
        range(FlowBuilder::new().ack_threshold(76)),
        FlowBuilderError::InvalidRange(
            "ack_threshold".to_string(),
            "1 to 75".to_string(),
            "76".to_string()
        )
    );
    assert_eq!(
        range(FlowBuilder::new().max_unacked_messages(0)),
        FlowBuilderError::InvalidRange(
            "max_unacked_messages".to_string(),
            "1".to_string(),
            "0".to_string()
        )
    );
    assert_eq!(
        range(FlowBuilder::new().selector("\0").window_size(0)),
        FlowBuilderError::InvalidArgs("selector".to_string())
    );
    assert!(FlowBuilder::new()
        .bind_timeout_ms(1)
        .max_bind_tries(1)
        .ack_timer_ms(1500)
        .ack_threshold(75)
        .max_unacked_messages(1)
        .build()
        .is_ok());
}

#[test]
fn flow_creation_outcome() {
    let record = SolClientSubCode { subcode: 3, error_string: "no".to_string() };
    assert!(flow_create_outcome(0, record.clone()).is_ok());
    assert_eq!(
        flow_create_outcome(-1, record.clone()).err().unwrap(),
        FlowBuilderError::InitializationFailure(SolClientReturnCode::Fail, record)
    );
}

#[test]
fn endpoint_redelivery_above_255_is_refused() {
    let err = EndpointPropsBuilder::new()
        .id(EndpointId::Queue { name: "q".to_string() })
        .max_msg_redelivery(256)
        .build()
        .err()
        .unwrap();
    assert_eq!(
        err,
        EndpointPropsBuilderError::InvalidRange(
            "max_msg_redelivery".to_string(),
            "<= 255".to_string(),
            "256".to_string()
        )
    );
    assert!(EndpointPropsBuilder::new()
        .id(EndpointId::Queue { name: "q".to_string() })
        .max_msg_redelivery(255)
        .build()
        .is_ok());
}
