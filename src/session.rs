//! Configuration of a broker session: collected by a builder, validated
//! against the engine's documented limits, and encoded as a property table.
use crate::fault::{
    max_fault, min_fault, required_fault, signed_min_fault, text_fault, zero_or_min_fault, ArgFault,
};
use crate::text::{
    decimal_i64, decimal_u64, flag_entry, flag_text, is_native_option, is_native_text, native_text,
    number_entry, push_entry, push_flag, push_number, push_signed, push_text, signed_entry,
    text_entry,
};
use vstd::prelude::*;
use vstd::string::*;

verus! {

/// Why a session configuration was refused.
#[derive(Debug, Clone, PartialEq, Eq)]
pub enum SessionBuilderError {
    /// The named argument holds a NUL character.
    InvalidArgs(String),
    /// The named argument must be set.
    MissingRequiredArgs(String),
    /// The named argument is out of range: the field, the allowed range (its
    /// least value where the range has only a lower bound) and the value found.
    InvalidRange(String, String, String),
}

impl SessionBuilderError {
    pub open spec fn fault(&self) -> ArgFault {
        match self {
            SessionBuilderError::InvalidArgs(f) => ArgFault::Invalid(f@),
            SessionBuilderError::MissingRequiredArgs(f) => ArgFault::Missing(f@),
            SessionBuilderError::InvalidRange(f, a, v) => ArgFault::OutOfRange(f@, a@, v@),
        }
    }
}

fn check_required(field: &str, v: &Option<String>) -> (r: Option<SessionBuilderError>)
    ensures
        r is None <==> required_fault(field@, *v) is None,
        r matches Some(e) ==> required_fault(field@, *v) == Some(e.fault()),
{
    match v {
        None => Some(SessionBuilderError::MissingRequiredArgs(String::from_str(field))),
        Some(s) => if native_text(s.as_str()) {
            None
        } else {
            Some(SessionBuilderError::InvalidArgs(String::from_str(field)))
        },
    }
}

fn check_text(field: &str, v: &Option<String>) -> (r: Option<SessionBuilderError>)
    ensures
        r is None <==> text_fault(field@, *v) is None,
        r matches Some(e) ==> text_fault(field@, *v) == Some(e.fault()),
{
    match v {
        Some(s) => if native_text(s.as_str()) {
            None
        } else {
            Some(SessionBuilderError::InvalidArgs(String::from_str(field)))
        },
        None => None,
    }
}

fn check_min(field: &str, v: Option<u64>, min: u64, allowed: &str) -> (r: Option<
    SessionBuilderError,
>)
    ensures
        r is None <==> min_fault(field@, v, min as nat, allowed@) is None,
        r matches Some(e) ==> min_fault(field@, v, min as nat, allowed@) == Some(e.fault()),
{
    match v {
        Some(x) => if x < min {
            Some(
                SessionBuilderError::InvalidRange(
                    String::from_str(field),
                    String::from_str(allowed),
                    decimal_u64(x),
                ),
            )
        } else {
            None
        },
        None => None,
    }
}

fn check_zero_or_min(field: &str, v: Option<u64>, min: u64, allowed: &str) -> (r: Option<
    SessionBuilderError,
>)
    ensures
        r is None <==> zero_or_min_fault(field@, v, min as nat, allowed@) is None,
        r matches Some(e) ==> zero_or_min_fault(field@, v, min as nat, allowed@) == Some(
            e.fault(),
        ),
{
    match v {
        Some(x) => if x != 0 && x < min {
            Some(
                SessionBuilderError::InvalidRange(
                    String::from_str(field),
                    String::from_str(allowed),
                    decimal_u64(x),
                ),
            )
        } else {
            None
        },
        None => None,
    }
}

fn check_max(field: &str, v: Option<u8>, max: u8, allowed: &str) -> (r: Option<
    SessionBuilderError,
>)
    ensures
        r is None <==> max_fault(field@, v, max as nat, allowed@) is None,
        r matches Some(e) ==> max_fault(field@, v, max as nat, allowed@) == Some(e.fault()),
{
    match v {
        Some(x) => if x > max {
            Some(
                SessionBuilderError::InvalidRange(
                    String::from_str(field),
                    String::from_str(allowed),
                    decimal_u64(x as u64),
                ),
            )
        } else {
            None
        },
        None => None,
    }
}

fn check_signed_min(field: &str, v: Option<i64>, min: i64, allowed: &str) -> (r: Option<
    SessionBuilderError,
>)
    ensures
        r is None <==> signed_min_fault(field@, v, min as int, allowed@) is None,
        r matches Some(e) ==> signed_min_fault(field@, v, min as int, allowed@) == Some(
            e.fault(),
        ),
{
    match v {
        Some(x) => if x < min {
            Some(
                SessionBuilderError::InvalidRange(
                    String::from_str(field),
                    String::from_str(allowed),
                    decimal_i64(x),
                ),
            )
        } else {
            None
        },
        None => None,
    }
}

/// The settings that a session builder has collected, each one optional.
#[derive(Debug, Clone, PartialEq, Eq)]
pub struct UncheckedSessionProps {
    pub host_name: Option<String>,
    pub vpn_name: Option<String>,
    pub username: Option<String>,
    pub password: Option<String>,
    pub buffer_size_bytes: Option<u64>,
    pub block_write_timeout_ms: Option<u64>,
    pub connect_timeout_ms: Option<u64>,
    pub subconfirm_timeout_ms: Option<u64>,
    pub ignore_dup_subscription_error: Option<bool>,
    pub tcp_nodelay: Option<bool>,
    pub socket_send_buf_size_bytes: Option<u64>,
    pub socket_rcv_buf_size_bytes: Option<u64>,
    pub keep_alive_interval_ms: Option<u64>,
    pub keep_alive_limit: Option<u64>,
    pub application_description: Option<String>,
    pub client_name: Option<String>,
    pub compression_level: Option<u8>,
    pub generate_rcv_timestamps: Option<bool>,
    pub generate_send_timestamp: Option<bool>,
    pub generate_sender_id: Option<bool>,
    pub generate_sender_sequence_number: Option<bool>,
    pub connect_retries_per_host: Option<i64>,
    pub connect_retries: Option<i64>,
    pub reconnect_retries: Option<i64>,
    pub reconnect_retry_wait_ms: Option<u64>,
    pub reapply_subscriptions: Option<bool>,
    pub provision_timeout_ms: Option<u64>,
    pub calculate_message_expiration: Option<bool>,
    pub no_local: Option<bool>,
    pub modifyprop_timeout_ms: Option<u64>,
    pub ssl_trust_store_dir: Option<String>,
}

/// The settings of a validated session configuration.
#[derive(Debug, Clone, PartialEq, Eq)]
pub struct SessionPropsView {
    pub host_name: String,
    pub vpn_name: String,
    pub username: String,
    pub password: String,
    pub buffer_size_bytes: Option<u64>,
    pub block_write_timeout_ms: Option<u64>,
    pub connect_timeout_ms: Option<u64>,
    pub subconfirm_timeout_ms: Option<u64>,
    pub ignore_dup_subscription_error: Option<bool>,
    pub tcp_nodelay: Option<bool>,
    pub socket_send_buf_size_bytes: Option<u64>,
    pub socket_rcv_buf_size_bytes: Option<u64>,
    pub keep_alive_interval_ms: Option<u64>,
    pub keep_alive_limit: Option<u64>,
    pub application_description: Option<String>,
    pub client_name: Option<String>,
    pub compression_level: Option<u8>,
    pub generate_rcv_timestamps: Option<bool>,
    pub generate_send_timestamp: Option<bool>,
    pub generate_sender_id: Option<bool>,
    pub generate_sender_sequence_number: Option<bool>,
    pub connect_retries_per_host: Option<i64>,
    pub connect_retries: Option<i64>,
    pub reconnect_retries: Option<i64>,
    pub reconnect_retry_wait_ms: Option<u64>,
    pub reapply_subscriptions: Option<bool>,
    pub provision_timeout_ms: Option<u64>,
    pub calculate_message_expiration: Option<bool>,
    pub no_local: Option<bool>,
    pub modifyprop_timeout_ms: Option<u64>,
    pub ssl_trust_store_dir: Option<String>,
}

/// Collects session settings; `build` validates them.
pub struct SessionBuilder {
    props: UncheckedSessionProps,
}

impl View for SessionBuilder {
    type V = UncheckedSessionProps;

    closed spec fn view(&self) -> UncheckedSessionProps {
        self.props
    }
}

/// A validated session configuration, ready to be handed to the engine.
#[derive(Debug, Clone, PartialEq, Eq)]
pub struct SessionProps {
    props: SessionPropsView,
}

impl View for SessionProps {
    type V = SessionPropsView;

    closed spec fn view(&self) -> SessionPropsView {
        self.props
    }
}

/// The first check that a set of session settings fails, in the order in
/// which `build` makes them: required texts, optional texts, then ranges.
pub open spec fn session_fault(u: UncheckedSessionProps) -> Option<ArgFault> {
    let host_name = required_fault("host_name"@, u.host_name);
    let vpn_name = required_fault("vpn_name"@, u.vpn_name);
    let username = required_fault("username"@, u.username);
    let password = required_fault("password"@, u.password);
    let client_name = text_fault("client_name"@, u.client_name);
    let application_description = text_fault("application_description"@, u.application_description);
    let buffer_size_bytes = min_fault("buffer_size_bytes"@, u.buffer_size_bytes, 1, "1"@);
    let block_write_timeout_ms = min_fault(
        "block_write_timeout_ms"@,
        u.block_write_timeout_ms,
        1,
        "1"@,
    );
    let connect_timeout_ms = min_fault("connect_timeout_ms"@, u.connect_timeout_ms, 1, "1"@);
    let subconfirm_timeout_ms = min_fault(
        "subconfirm_timeout_ms"@,
        u.subconfirm_timeout_ms,
        1000,
        "1000"@,
    );
    let socket_send_buf_size_bytes = zero_or_min_fault(
        "socket_send_buf_size_bytes"@,
        u.socket_send_buf_size_bytes,
        1024,
        "0 or >= 1024"@,
    );
    let socket_rcv_buf_size_bytes = zero_or_min_fault(
        "socket_rcv_buf_size_bytes"@,
        u.socket_rcv_buf_size_bytes,
        1024,
        "0 or >= 1024"@,
    );
    let keep_alive_interval_ms = zero_or_min_fault(
        "keep_alive_interval_ms"@,
        u.keep_alive_interval_ms,
        50,
        "0 or >= 50"@,
    );
    let keep_alive_limit = min_fault("keep_alive_limit"@, u.keep_alive_limit, 3, "3"@);
    let compression_level = max_fault("compression_level"@, u.compression_level, 9, "<= 9"@);
    let connect_retries_per_host = signed_min_fault(
        "connect_retries_per_host"@,
        u.connect_retries_per_host,
        -1,
        "-1"@,
    );
    let connect_retries = signed_min_fault("connect_retries"@, u.connect_retries, -1, "-1"@);
    let reconnect_retries = signed_min_fault("reconnect_retries"@, u.reconnect_retries, -1, "-1"@);
    let ssl_trust_store_dir = text_fault("ssl_trust_store_dir"@, u.ssl_trust_store_dir);
    if host_name is Some {
        host_name
    } else if vpn_name is Some {
        vpn_name
    } else if username is Some {
        username
    } else if password is Some {
        password
    } else if client_name is Some {
        client_name
    } else if application_description is Some {
        application_description
    } else if buffer_size_bytes is Some {
        buffer_size_bytes
    } else if block_write_timeout_ms is Some {
        block_write_timeout_ms
    } else if connect_timeout_ms is Some {
        connect_timeout_ms
    } else if subconfirm_timeout_ms is Some {
        subconfirm_timeout_ms
    } else if socket_send_buf_size_bytes is Some {
        socket_send_buf_size_bytes
    } else if socket_rcv_buf_size_bytes is Some {
        socket_rcv_buf_size_bytes
    } else if keep_alive_interval_ms is Some {
        keep_alive_interval_ms
    } else if keep_alive_limit is Some {
        keep_alive_limit
    } else if compression_level is Some {
        compression_level
    } else if connect_retries_per_host is Some {
        connect_retries_per_host
    } else if connect_retries is Some {
        connect_retries
    } else if reconnect_retries is Some {
        reconnect_retries
    } else {
        ssl_trust_store_dir
    }
}

/// The validated configuration that session settings without a fault stand for.
pub open spec fn checked_session(u: UncheckedSessionProps) -> SessionPropsView {
    SessionPropsView {
        host_name: u.host_name->0,
        vpn_name: u.vpn_name->0,
        username: u.username->0,
        password: u.password->0,
        buffer_size_bytes: u.buffer_size_bytes,
        block_write_timeout_ms: u.block_write_timeout_ms,
        connect_timeout_ms: u.connect_timeout_ms,
        subconfirm_timeout_ms: u.subconfirm_timeout_ms,
        ignore_dup_subscription_error: u.ignore_dup_subscription_error,
        tcp_nodelay: u.tcp_nodelay,
        socket_send_buf_size_bytes: u.socket_send_buf_size_bytes,
        socket_rcv_buf_size_bytes: u.socket_rcv_buf_size_bytes,
        keep_alive_interval_ms: u.keep_alive_interval_ms,
        keep_alive_limit: u.keep_alive_limit,
        application_description: u.application_description,
        client_name: u.client_name,
        compression_level: u.compression_level,
        generate_rcv_timestamps: u.generate_rcv_timestamps,
        generate_send_timestamp: u.generate_send_timestamp,
        generate_sender_id: u.generate_sender_id,
        generate_sender_sequence_number: u.generate_sender_sequence_number,
        connect_retries_per_host: u.connect_retries_per_host,
        connect_retries: u.connect_retries,
        reconnect_retries: u.reconnect_retries,
        reconnect_retry_wait_ms: u.reconnect_retry_wait_ms,
        reapply_subscriptions: u.reapply_subscriptions,
        provision_timeout_ms: u.provision_timeout_ms,
        calculate_message_expiration: u.calculate_message_expiration,
        no_local: u.no_local,
        modifyprop_timeout_ms: u.modifyprop_timeout_ms,
        ssl_trust_store_dir: u.ssl_trust_store_dir,
    }
}

/// The property table of a validated session configuration: keys and values
/// in turn, in a fixed order, the required settings and blocking connection
/// first, each optional setting present only when it was set.
pub open spec fn session_table(p: SessionPropsView) -> Seq<Seq<char>> {
    seq![
        "SESSION_HOST"@,
        p.host_name@,
        "SESSION_VPN_NAME"@,
        p.vpn_name@,
        "SESSION_USERNAME"@,
        p.username@,
        "SESSION_PASSWORD"@,
        p.password@,
        "SESSION_CONNECT_BLOCKING"@,
        flag_text(true),
    ]
        + number_entry("SESSION_BUFFER_SIZE"@, p.buffer_size_bytes)
        + number_entry("SESSION_BLOCKING_WRITE_TIMEOUT_MS"@, p.block_write_timeout_ms)
        + number_entry("SESSION_CONNECT_TIMEOUT_MS"@, p.connect_timeout_ms)
        + number_entry("SESSION_SUBCONFIRM_TIMEOUT_MS"@, p.subconfirm_timeout_ms)
        + flag_entry("SESSION_IGNORE_DUP_SUBSCRIPTION_ERROR"@, p.ignore_dup_subscription_error)
        + flag_entry("SESSION_TCP_NODELAY"@, p.tcp_nodelay)
        + number_entry("SESSION_SOCKET_SEND_BUF_SIZE"@, p.socket_send_buf_size_bytes)
        + number_entry("SESSION_SOCKET_RCV_BUF_SIZE"@, p.socket_rcv_buf_size_bytes)
        + number_entry("SESSION_KEEP_ALIVE_INT_MS"@, p.keep_alive_interval_ms)
        + number_entry("SESSION_KEEP_ALIVE_LIMIT"@, p.keep_alive_limit)
        + text_entry("SESSION_APPLICATION_DESCRIPTION"@, p.application_description)
        + text_entry("SESSION_CLIENT_NAME"@, p.client_name)
        + number_entry("SESSION_COMPRESSION_LEVEL"@, match p.compression_level {
            Some(x) => Some(x as u64),
            None => None,
        })
        + flag_entry("SESSION_RCV_TIMESTAMP"@, p.generate_rcv_timestamps)
        + flag_entry("SESSION_SEND_TIMESTAMP"@, p.generate_send_timestamp)
        + flag_entry("SESSION_SEND_SENDER_ID"@, p.generate_sender_id)
        + flag_entry("SESSION_SEND_SEQUENCE_NUMBER"@, p.generate_sender_sequence_number)
        + signed_entry("SESSION_CONNECT_RETRIES_PER_HOST"@, p.connect_retries_per_host)
        + signed_entry("SESSION_CONNECT_RETRIES"@, p.connect_retries)
        + signed_entry("SESSION_RECONNECT_RETRIES"@, p.reconnect_retries)
        + number_entry("SESSION_RECONNECT_RETRY_WAIT_MS"@, p.reconnect_retry_wait_ms)
        + flag_entry("SESSION_REAPPLY_SUBSCRIPTIONS"@, p.reapply_subscriptions)
        + number_entry("SESSION_PROVISION_TIMEOUT_MS"@, p.provision_timeout_ms)
        + flag_entry("SESSION_CALCULATE_MESSAGE_EXPIRATION"@, p.calculate_message_expiration)
        + flag_entry("SESSION_NO_LOCAL"@, p.no_local)
        + number_entry("SESSION_MODIFYPROP_TIMEOUT_MS"@, p.modifyprop_timeout_ms)
        + text_entry("SESSION_SSL_TRUST_STORE_DIR"@, p.ssl_trust_store_dir)
}

impl SessionBuilder {
    /// A builder with nothing set.
    pub fn new() -> (r: Self)
        ensures
            r@ == (UncheckedSessionProps {
                host_name: None,
                vpn_name: None,
                username: None,
                password: None,
                buffer_size_bytes: None,
                block_write_timeout_ms: None,
                connect_timeout_ms: None,
                subconfirm_timeout_ms: None,
                ignore_dup_subscription_error: None,
                tcp_nodelay: None,
                socket_send_buf_size_bytes: None,
                socket_rcv_buf_size_bytes: None,
                keep_alive_interval_ms: None,
                keep_alive_limit: None,
                application_description: None,
                client_name: None,
                compression_level: None,
                generate_rcv_timestamps: None,
                generate_send_timestamp: None,
                generate_sender_id: None,
                generate_sender_sequence_number: None,
                connect_retries_per_host: None,
                connect_retries: None,
                reconnect_retries: None,
                reconnect_retry_wait_ms: None,
                reapply_subscriptions: None,
                provision_timeout_ms: None,
                calculate_message_expiration: None,
                no_local: None,
                modifyprop_timeout_ms: None,
                ssl_trust_store_dir: None,
            }),
    {
        SessionBuilder {
            props: UncheckedSessionProps {
                host_name: None,
                vpn_name: None,
                username: None,
                password: None,
                buffer_size_bytes: None,
                block_write_timeout_ms: None,
                connect_timeout_ms: None,
                subconfirm_timeout_ms: None,
                ignore_dup_subscription_error: None,
                tcp_nodelay: None,
                socket_send_buf_size_bytes: None,
                socket_rcv_buf_size_bytes: None,
                keep_alive_interval_ms: None,
                keep_alive_limit: None,
                application_description: None,
                client_name: None,
                compression_level: None,
                generate_rcv_timestamps: None,
                generate_send_timestamp: None,
                generate_sender_id: None,
                generate_sender_sequence_number: None,
                connect_retries_per_host: None,
                connect_retries: None,
                reconnect_retries: None,
                reconnect_retry_wait_ms: None,
                reapply_subscriptions: None,
                provision_timeout_ms: None,
                calculate_message_expiration: None,
                no_local: None,
                modifyprop_timeout_ms: None,
                ssl_trust_store_dir: None,
            },
        }
    }

    /// Validates the settings and encodes nothing yet: every required text is
    /// set, no text holds a NUL, and every number is in the engine's range.
    pub fn build(self) -> (r: Result<SessionProps, SessionBuilderError>)
        ensures
            session_fault(self@) matches Some(f) ==> (r matches Err(e) && e.fault() == f),
            session_fault(self@) is None ==> (r matches Ok(p) && p@ == checked_session(self@)
                && p.wf()),
    {
        let u = self.props;
        match check_required("host_name", &u.host_name) {
            Some(e) => {
                return Err(e);
            },
            None => {},
        }
        match check_required("vpn_name", &u.vpn_name) {
            Some(e) => {
                return Err(e);
            },
            None => {},
        }
        match check_required("username", &u.username) {
            Some(e) => {
                return Err(e);
            },
            None => {},
        }
        match check_required("password", &u.password) {
            Some(e) => {
                return Err(e);
            },
            None => {},
        }
        match check_text("client_name", &u.client_name) {
            Some(e) => {
                return Err(e);
            },
            None => {},
        }
        match check_text("application_description", &u.application_description) {
            Some(e) => {
                return Err(e);
            },
            None => {},
        }
        match check_min("buffer_size_bytes", u.buffer_size_bytes, 1, "1") {
            Some(e) => {
                return Err(e);
            },
            None => {},
        }
        match check_min("block_write_timeout_ms", u.block_write_timeout_ms, 1, "1") {
            Some(e) => {
                return Err(e);
            },
            None => {},
        }
        match check_min("connect_timeout_ms", u.connect_timeout_ms, 1, "1") {
            Some(e) => {
                return Err(e);
            },
            None => {},
        }
        match check_min("subconfirm_timeout_ms", u.subconfirm_timeout_ms, 1000, "1000") {
            Some(e) => {
                return Err(e);
            },
            None => {},
        }
        match check_zero_or_min(
            "socket_send_buf_size_bytes",
            u.socket_send_buf_size_bytes,
            1024,
            "0 or >= 1024",
        ) {
            Some(e) => {
                return Err(e);
            },
            None => {},
        }
        match check_zero_or_min(
            "socket_rcv_buf_size_bytes",
            u.socket_rcv_buf_size_bytes,
            1024,
            "0 or >= 1024",
        ) {
            Some(e) => {
                return Err(e);
            },
            None => {},
        }
        match check_zero_or_min(
            "keep_alive_interval_ms",
            u.keep_alive_interval_ms,
            50,
            "0 or >= 50",
        ) {
            Some(e) => {
                return Err(e);
            },
            None => {},
        }
        match check_min("keep_alive_limit", u.keep_alive_limit, 3, "3") {
            Some(e) => {
                return Err(e);
            },
            None => {},
        }
        match check_max("compression_level", u.compression_level, 9, "<= 9") {
            Some(e) => {
                return Err(e);
            },
            None => {},
        }
        match check_signed_min(
            "connect_retries_per_host",
            u.connect_retries_per_host,
            -1,
            "-1",
        ) {
            Some(e) => {
                return Err(e);
            },
            None => {},
        }
        match check_signed_min("connect_retries", u.connect_retries, -1, "-1") {
            Some(e) => {
                return Err(e);
            },
            None => {},
        }
        match check_signed_min("reconnect_retries", u.reconnect_retries, -1, "-1") {
            Some(e) => {
                return Err(e);
            },
            None => {},
        }
        match check_text("ssl_trust_store_dir", &u.ssl_trust_store_dir) {
            Some(e) => {
                return Err(e);
            },
            None => {},
        }
        Ok(
            SessionProps {
                props: SessionPropsView {
                    host_name: u.host_name.unwrap(),
                    vpn_name: u.vpn_name.unwrap(),
                    username: u.username.unwrap(),
                    password: u.password.unwrap(),
                    buffer_size_bytes: u.buffer_size_bytes,
                    block_write_timeout_ms: u.block_write_timeout_ms,
                    connect_timeout_ms: u.connect_timeout_ms,
                    subconfirm_timeout_ms: u.subconfirm_timeout_ms,
                    ignore_dup_subscription_error: u.ignore_dup_subscription_error,
                    tcp_nodelay: u.tcp_nodelay,
                    socket_send_buf_size_bytes: u.socket_send_buf_size_bytes,
                    socket_rcv_buf_size_bytes: u.socket_rcv_buf_size_bytes,
                    keep_alive_interval_ms: u.keep_alive_interval_ms,
                    keep_alive_limit: u.keep_alive_limit,
                    application_description: u.application_description,
                    client_name: u.client_name,
                    compression_level: u.compression_level,
                    generate_rcv_timestamps: u.generate_rcv_timestamps,
                    generate_send_timestamp: u.generate_send_timestamp,
                    generate_sender_id: u.generate_sender_id,
                    generate_sender_sequence_number: u.generate_sender_sequence_number,
                    connect_retries_per_host: u.connect_retries_per_host,
                    connect_retries: u.connect_retries,
                    reconnect_retries: u.reconnect_retries,
                    reconnect_retry_wait_ms: u.reconnect_retry_wait_ms,
                    reapply_subscriptions: u.reapply_subscriptions,
                    provision_timeout_ms: u.provision_timeout_ms,
                    calculate_message_expiration: u.calculate_message_expiration,
                    no_local: u.no_local,
                    modifyprop_timeout_ms: u.modifyprop_timeout_ms,
                    ssl_trust_store_dir: u.ssl_trust_store_dir,
                },
            },
        )
    }

    /// Sets the broker address, such as `tcp://host:55555`. Required.
    pub fn host_name(self, host_name: &str) -> (r: Self)
        ensures
            r@ == (UncheckedSessionProps {
                host_name: r@.host_name,
                ..self@
            }),
            r@.host_name matches Some(v) && v@ == host_name@,
    {
        SessionBuilder {
            props: UncheckedSessionProps {
                host_name: Some(String::from_str(host_name)),
                ..self.props
            },
        }
    }

    /// Sets the message VPN to join. Required.
    pub fn vpn_name(self, vpn_name: &str) -> (r: Self)
        ensures
            r@ == (UncheckedSessionProps {
                vpn_name: r@.vpn_name,
                ..self@
            }),
            r@.vpn_name matches Some(v) && v@ == vpn_name@,
    {
        SessionBuilder {
            props: UncheckedSessionProps {
                vpn_name: Some(String::from_str(vpn_name)),
                ..self.props
            },
        }
    }

    /// Sets the client user name. Required.
    pub fn username(self, username: &str) -> (r: Self)
        ensures
            r@ == (UncheckedSessionProps {
                username: r@.username,
                ..self@
            }),
            r@.username matches Some(v) && v@ == username@,
    {
        SessionBuilder {
            props: UncheckedSessionProps {
                username: Some(String::from_str(username)),
                ..self.props
            },
        }
    }

    /// Sets the client password. Required.
    pub fn password(self, password: &str) -> (r: Self)
        ensures
            r@ == (UncheckedSessionProps {
                password: r@.password,
                ..self@
            }),
            r@.password matches Some(v) && v@ == password@,
    {
        SessionBuilder {
            props: UncheckedSessionProps {
                password: Some(String::from_str(password)),
                ..self.props
            },
        }
    }

    /// Sets the send buffer size in bytes; at least 1.
    pub fn buffer_size_bytes(self, buffer_size_bytes: u64) -> (r: Self)
        ensures
            r@ == (UncheckedSessionProps {
                buffer_size_bytes: Some(buffer_size_bytes),
                ..self@
            }),
    {
        SessionBuilder {
            props: UncheckedSessionProps {
                buffer_size_bytes: Some(buffer_size_bytes),
                ..self.props
            },
        }
    }

    /// Sets how long a blocked send waits, in milliseconds; at least 1.
    pub fn block_write_timeout_ms(self, block_write_timeout_ms: u64) -> (r: Self)
        ensures
            r@ == (UncheckedSessionProps {
                block_write_timeout_ms: Some(block_write_timeout_ms),
                ..self@
            }),
    {
        SessionBuilder {
            props: UncheckedSessionProps {
                block_write_timeout_ms: Some(block_write_timeout_ms),
                ..self.props
            },
        }
    }

    /// Sets how long a connection attempt may take, in milliseconds; at least 1.
    pub fn connect_timeout_ms(self, connect_timeout_ms: u64) -> (r: Self)
        ensures
            r@ == (UncheckedSessionProps {
                connect_timeout_ms: Some(connect_timeout_ms),
                ..self@
            }),
    {
        SessionBuilder {
            props: UncheckedSessionProps {
                connect_timeout_ms: Some(connect_timeout_ms),
                ..self.props
            },
        }
    }

    /// Sets how long to wait for a subscription to be confirmed, in milliseconds; at least 1000.
    pub fn subconfirm_timeout_ms(self, subconfirm_timeout_ms: u64) -> (r: Self)
        ensures
            r@ == (UncheckedSessionProps {
                subconfirm_timeout_ms: Some(subconfirm_timeout_ms),
                ..self@
            }),
    {
        SessionBuilder {
            props: UncheckedSessionProps {
                subconfirm_timeout_ms: Some(subconfirm_timeout_ms),
                ..self.props
            },
        }
    }

    /// Sets whether subscribing twice to one topic counts as success.
    pub fn ignore_dup_subscription_error(self, ignore_dup_subscription_error: bool) -> (r: Self)
        ensures
            r@ == (UncheckedSessionProps {
                ignore_dup_subscription_error: Some(ignore_dup_subscription_error),
                ..self@
            }),
    {
        SessionBuilder {
            props: UncheckedSessionProps {
                ignore_dup_subscription_error: Some(ignore_dup_subscription_error),
                ..self.props
            },
        }
    }

    /// Sets whether the connection disables Nagle's algorithm.
    pub fn tcp_nodelay(self, tcp_nodelay: bool) -> (r: Self)
        ensures
            r@ == (UncheckedSessionProps {
                tcp_nodelay: Some(tcp_nodelay),
                ..self@
            }),
    {
        SessionBuilder {
            props: UncheckedSessionProps {
                tcp_nodelay: Some(tcp_nodelay),
                ..self.props
            },
        }
    }

    /// Sets the socket send buffer size in bytes; 0 (the system's default) or at least 1024.
    pub fn socket_send_buf_size_bytes(self, socket_send_buf_size_bytes: u64) -> (r: Self)
        ensures
            r@ == (UncheckedSessionProps {
                socket_send_buf_size_bytes: Some(socket_send_buf_size_bytes),
                ..self@
            }),
    {
        SessionBuilder {
            props: UncheckedSessionProps {
                socket_send_buf_size_bytes: Some(socket_send_buf_size_bytes),
                ..self.props
            },
        }
    }

    /// Sets the socket receive buffer size in bytes; 0 (the system's default) or at least 1024.
    pub fn socket_rcv_buf_size_bytes(self, socket_rcv_buf_size_bytes: u64) -> (r: Self)
        ensures
            r@ == (UncheckedSessionProps {
                socket_rcv_buf_size_bytes: Some(socket_rcv_buf_size_bytes),
                ..self@
            }),
    {
        SessionBuilder {
            props: UncheckedSessionProps {
                socket_rcv_buf_size_bytes: Some(socket_rcv_buf_size_bytes),
                ..self.props
            },
        }
    }

    /// Sets the time between keep-alive messages, in milliseconds; 0 (none) or at least 50.
    pub fn keep_alive_interval_ms(self, keep_alive_interval_ms: u64) -> (r: Self)
        ensures
            r@ == (UncheckedSessionProps {
                keep_alive_interval_ms: Some(keep_alive_interval_ms),
                ..self@
            }),
    {
        SessionBuilder {
            props: UncheckedSessionProps {
                keep_alive_interval_ms: Some(keep_alive_interval_ms),
                ..self.props
            },
        }
    }

    /// Sets how many keep-alive messages may go unanswered before the session is down; at least 3.
    pub fn keep_alive_limit(self, keep_alive_limit: u64) -> (r: Self)
        ensures
            r@ == (UncheckedSessionProps {
                keep_alive_limit: Some(keep_alive_limit),
                ..self@
            }),
    {
        SessionBuilder {
            props: UncheckedSessionProps {
                keep_alive_limit: Some(keep_alive_limit),
                ..self.props
            },
        }
    }

    /// Sets the description of the application that the broker shows.
    pub fn application_description(self, application_description: &str) -> (r: Self)
        ensures
            r@ == (UncheckedSessionProps {
                application_description: r@.application_description,
                ..self@
            }),
            r@.application_description matches Some(v) && v@ == application_description@,
    {
        SessionBuilder {
            props: UncheckedSessionProps {
                application_description: Some(String::from_str(application_description)),
                ..self.props
            },
        }
    }

    /// Sets the name under which the broker knows this client.
    pub fn client_name(self, client_name: &str) -> (r: Self)
        ensures
            r@ == (UncheckedSessionProps {
                client_name: r@.client_name,
                ..self@
            }),
            r@.client_name matches Some(v) && v@ == client_name@,
    {
        SessionBuilder {
            props: UncheckedSessionProps {
                client_name: Some(String::from_str(client_name)),
                ..self.props
            },
        }
    }

    /// Sets the compression level, from 0 (none) to 9.
    pub fn compression_level(self, compression_level: u8) -> (r: Self)
        ensures
            r@ == (UncheckedSessionProps {
                compression_level: Some(compression_level),
                ..self@
            }),
    {
        SessionBuilder {
            props: UncheckedSessionProps {
                compression_level: Some(compression_level),
                ..self.props
            },
        }
    }

    /// Sets whether received messages carry a receive timestamp.
    pub fn generate_rcv_timestamps(self, generate_rcv_timestamps: bool) -> (r: Self)
        ensures
            r@ == (UncheckedSessionProps {
                generate_rcv_timestamps: Some(generate_rcv_timestamps),
                ..self@
            }),
    {
        SessionBuilder {
            props: UncheckedSessionProps {
                generate_rcv_timestamps: Some(generate_rcv_timestamps),
                ..self.props
            },
        }
    }

    /// Sets whether sent messages carry a send timestamp.
    pub fn generate_send_timestamp(self, generate_send_timestamp: bool) -> (r: Self)
        ensures
            r@ == (UncheckedSessionProps {
                generate_send_timestamp: Some(generate_send_timestamp),
                ..self@
            }),
    {
        SessionBuilder {
            props: UncheckedSessionProps {
                generate_send_timestamp: Some(generate_send_timestamp),
                ..self.props
            },
        }
    }

    /// Sets whether sent messages carry the sender's id.
    pub fn generate_sender_id(self, generate_sender_id: bool) -> (r: Self)
        ensures
            r@ == (UncheckedSessionProps {
                generate_sender_id: Some(generate_sender_id),
                ..self@
            }),
    {
        SessionBuilder {
            props: UncheckedSessionProps {
                generate_sender_id: Some(generate_sender_id),
                ..self.props
            },
        }
    }

    /// Sets whether sent messages carry a sequence number.
    pub fn generate_sender_sequence_number(self, generate_sender_sequence_number: bool) -> (r: Self)
        ensures
            r@ == (UncheckedSessionProps {
                generate_sender_sequence_number: Some(generate_sender_sequence_number),
                ..self@
            }),
    {
        SessionBuilder {
            props: UncheckedSessionProps {
                generate_sender_sequence_number: Some(generate_sender_sequence_number),
                ..self.props
            },
        }
    }

    /// Sets how often each host is tried; -1 means without end.
    pub fn connect_retries_per_host(self, connect_retries_per_host: i64) -> (r: Self)
        ensures
            r@ == (UncheckedSessionProps {
                connect_retries_per_host: Some(connect_retries_per_host),
                ..self@
            }),
    {
        SessionBuilder {
            props: UncheckedSessionProps {
                connect_retries_per_host: Some(connect_retries_per_host),
                ..self.props
            },
        }
    }

    /// Sets how often the host list is tried on connect; -1 means without end.
    pub fn connect_retries(self, connect_retries: i64) -> (r: Self)
        ensures
            r@ == (UncheckedSessionProps {
                connect_retries: Some(connect_retries),
                ..self@
            }),
    {
        SessionBuilder {
            props: UncheckedSessionProps {
                connect_retries: Some(connect_retries),
                ..self.props
            },
        }
    }

    /// Sets how often reconnection is tried; -1 means without end.
    pub fn reconnect_retries(self, reconnect_retries: i64) -> (r: Self)
        ensures
            r@ == (UncheckedSessionProps {
                reconnect_retries: Some(reconnect_retries),
                ..self@
            }),
    {
        SessionBuilder {
            props: UncheckedSessionProps {
                reconnect_retries: Some(reconnect_retries),
                ..self.props
            },
        }
    }

    /// Sets the wait between reconnection attempts, in milliseconds.
    pub fn reconnect_retry_wait_ms(self, reconnect_retry_wait_ms: u64) -> (r: Self)
        ensures
            r@ == (UncheckedSessionProps {
                reconnect_retry_wait_ms: Some(reconnect_retry_wait_ms),
                ..self@
            }),
    {
        SessionBuilder {
            props: UncheckedSessionProps {
                reconnect_retry_wait_ms: Some(reconnect_retry_wait_ms),
                ..self.props
            },
        }
    }

    /// Sets whether subscriptions are applied again after a reconnection.
    pub fn reapply_subscriptions(self, reapply_subscriptions: bool) -> (r: Self)
        ensures
            r@ == (UncheckedSessionProps {
                reapply_subscriptions: Some(reapply_subscriptions),
                ..self@
            }),
    {
        SessionBuilder {
            props: UncheckedSessionProps {
                reapply_subscriptions: Some(reapply_subscriptions),
                ..self.props
            },
        }
    }

    /// Sets how long to wait for an endpoint to be provisioned, in milliseconds.
    pub fn provision_timeout_ms(self, provision_timeout_ms: u64) -> (r: Self)
        ensures
            r@ == (UncheckedSessionProps {
                provision_timeout_ms: Some(provision_timeout_ms),
                ..self@
            }),
    {
        SessionBuilder {
            props: UncheckedSessionProps {
                provision_timeout_ms: Some(provision_timeout_ms),
                ..self.props
            },
        }
    }

    /// Sets whether the expiration of received messages is computed.
    pub fn calculate_message_expiration(self, calculate_message_expiration: bool) -> (r: Self)
        ensures
            r@ == (UncheckedSessionProps {
                calculate_message_expiration: Some(calculate_message_expiration),
                ..self@
            }),
    {
        SessionBuilder {
            props: UncheckedSessionProps {
                calculate_message_expiration: Some(calculate_message_expiration),
                ..self.props
            },
        }
    }

    /// Sets whether messages this session publishes are kept from its own subscriptions.
    pub fn no_local(self, no_local: bool) -> (r: Self)
        ensures
            r@ == (UncheckedSessionProps {
                no_local: Some(no_local),
                ..self@
            }),
    {
        SessionBuilder {
            props: UncheckedSessionProps {
                no_local: Some(no_local),
                ..self.props
            },
        }
    }

    /// Sets how long to wait for a property change to be confirmed, in milliseconds.
    pub fn modifyprop_timeout_ms(self, modifyprop_timeout_ms: u64) -> (r: Self)
        ensures
            r@ == (UncheckedSessionProps {
                modifyprop_timeout_ms: Some(modifyprop_timeout_ms),
                ..self@
            }),
    {
        SessionBuilder {
            props: UncheckedSessionProps {
                modifyprop_timeout_ms: Some(modifyprop_timeout_ms),
                ..self.props
            },
        }
    }

    /// Sets the directory of trusted certificates for TLS connections.
    pub fn ssl_trust_store_dir(self, ssl_trust_store_dir: &str) -> (r: Self)
        ensures
            r@ == (UncheckedSessionProps {
                ssl_trust_store_dir: r@.ssl_trust_store_dir,
                ..self@
            }),
            r@.ssl_trust_store_dir matches Some(v) && v@ == ssl_trust_store_dir@,
    {
        SessionBuilder {
            props: UncheckedSessionProps {
                ssl_trust_store_dir: Some(String::from_str(ssl_trust_store_dir)),
                ..self.props
            },
        }
    }
}

impl SessionProps {
    /// Every text in the configuration can be handed to the engine, and every
    /// number is in the engine's range.
    pub open spec fn wf(&self) -> bool {
        &&& is_native_text(self@.host_name@)
        &&& is_native_text(self@.vpn_name@)
        &&& is_native_text(self@.username@)
        &&& is_native_text(self@.password@)
        &&& is_native_option(self@.client_name)
        &&& is_native_option(self@.application_description)
        &&& is_native_option(self@.ssl_trust_store_dir)
        &&& (self@.buffer_size_bytes matches Some(x) ==> x >= 1)
        &&& (self@.block_write_timeout_ms matches Some(x) ==> x >= 1)
        &&& (self@.connect_timeout_ms matches Some(x) ==> x >= 1)
        &&& (self@.subconfirm_timeout_ms matches Some(x) ==> x >= 1000)
        &&& (self@.socket_send_buf_size_bytes matches Some(x) ==> x == 0 || x >= 1024)
        &&& (self@.socket_rcv_buf_size_bytes matches Some(x) ==> x == 0 || x >= 1024)
        &&& (self@.keep_alive_interval_ms matches Some(x) ==> x == 0 || x >= 50)
        &&& (self@.keep_alive_limit matches Some(x) ==> x >= 3)
        &&& (self@.compression_level matches Some(x) ==> x <= 9)
        &&& (self@.connect_retries_per_host matches Some(x) ==> x >= -1)
        &&& (self@.connect_retries matches Some(x) ==> x >= -1)
        &&& (self@.reconnect_retries matches Some(x) ==> x >= -1)
    }

    /// The property table that the engine reads: keys and values in turn.
    pub fn to_raw(&self) -> (r: Vec<String>)
        ensures
            r.deep_view() == session_table(self@),
    {
        let p = &self.props;
        let mut table: Vec<String> = Vec::new();
        push_entry(&mut table, "SESSION_HOST", p.host_name.clone());
        push_entry(&mut table, "SESSION_VPN_NAME", p.vpn_name.clone());
        push_entry(&mut table, "SESSION_USERNAME", p.username.clone());
        push_entry(&mut table, "SESSION_PASSWORD", p.password.clone());
        push_entry(&mut table, "SESSION_CONNECT_BLOCKING", crate::text::flag_string(true));
        assert(table.deep_view() =~= seq![
            "SESSION_HOST"@,
            p.host_name@,
            "SESSION_VPN_NAME"@,
            p.vpn_name@,
            "SESSION_USERNAME"@,
            p.username@,
            "SESSION_PASSWORD"@,
            p.password@,
            "SESSION_CONNECT_BLOCKING"@,
            flag_text(true),
        ]);
        push_number(&mut table, "SESSION_BUFFER_SIZE", p.buffer_size_bytes);
        push_number(&mut table, "SESSION_BLOCKING_WRITE_TIMEOUT_MS", p.block_write_timeout_ms);
        push_number(&mut table, "SESSION_CONNECT_TIMEOUT_MS", p.connect_timeout_ms);
        push_number(&mut table, "SESSION_SUBCONFIRM_TIMEOUT_MS", p.subconfirm_timeout_ms);
        push_flag(
            &mut table,
            "SESSION_IGNORE_DUP_SUBSCRIPTION_ERROR",
            p.ignore_dup_subscription_error,
        );
        push_flag(&mut table, "SESSION_TCP_NODELAY", p.tcp_nodelay);
        push_number(&mut table, "SESSION_SOCKET_SEND_BUF_SIZE", p.socket_send_buf_size_bytes);
        push_number(&mut table, "SESSION_SOCKET_RCV_BUF_SIZE", p.socket_rcv_buf_size_bytes);
        push_number(&mut table, "SESSION_KEEP_ALIVE_INT_MS", p.keep_alive_interval_ms);
        push_number(&mut table, "SESSION_KEEP_ALIVE_LIMIT", p.keep_alive_limit);
        push_text(&mut table, "SESSION_APPLICATION_DESCRIPTION", &p.application_description);
        push_text(&mut table, "SESSION_CLIENT_NAME", &p.client_name);
        push_number(
            &mut table,
            "SESSION_COMPRESSION_LEVEL",
            match p.compression_level {
                Some(x) => Some(x as u64),
                None => None,
            },
        );
        push_flag(&mut table, "SESSION_RCV_TIMESTAMP", p.generate_rcv_timestamps);
        push_flag(&mut table, "SESSION_SEND_TIMESTAMP", p.generate_send_timestamp);
        push_flag(&mut table, "SESSION_SEND_SENDER_ID", p.generate_sender_id);
        push_flag(&mut table, "SESSION_SEND_SEQUENCE_NUMBER", p.generate_sender_sequence_number);
        push_signed(&mut table, "SESSION_CONNECT_RETRIES_PER_HOST", p.connect_retries_per_host);
        push_signed(&mut table, "SESSION_CONNECT_RETRIES", p.connect_retries);
        push_signed(&mut table, "SESSION_RECONNECT_RETRIES", p.reconnect_retries);
        push_number(&mut table, "SESSION_RECONNECT_RETRY_WAIT_MS", p.reconnect_retry_wait_ms);
        push_flag(&mut table, "SESSION_REAPPLY_SUBSCRIPTIONS", p.reapply_subscriptions);
        push_number(&mut table, "SESSION_PROVISION_TIMEOUT_MS", p.provision_timeout_ms);
        push_flag(
            &mut table,
            "SESSION_CALCULATE_MESSAGE_EXPIRATION",
            p.calculate_message_expiration,
        );
        push_flag(&mut table, "SESSION_NO_LOCAL", p.no_local);
        push_number(&mut table, "SESSION_MODIFYPROP_TIMEOUT_MS", p.modifyprop_timeout_ms);
        push_text(&mut table, "SESSION_SSL_TRUST_STORE_DIR", &p.ssl_trust_store_dir);
        table
    }
}

} // verus!
