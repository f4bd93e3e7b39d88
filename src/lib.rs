//! Configuration, message and status-code logic of a client binding for a
//! broker-based message bus. Every builder validates its input and encodes it
//! into the flat key/value property tables that the native client engine reads.
pub mod cache_session;
pub mod endpoint_props;
pub mod event;
pub mod fault;
pub mod flow;
pub mod inbound;
pub mod message;
pub mod operation;
pub mod return_code;
pub mod session;
pub mod text;

pub use crate::message::{OutboundMessage, OutboundMessageBuilder};
pub use crate::return_code::{SolClientReturnCode, SolClientSubCode, SolaceLogLevel};
pub use crate::session::SessionBuilder;
