//! Events that the engine reports on a session or a flow.
use vstd::prelude::*;

verus! {

/// A change in a session's state, or the outcome of one of its requests.
#[derive(Debug, Clone, Copy, PartialEq, Eq, Structural)]
pub enum SessionEvent {
    UpNotice,
    DownError,
    ConnectFailedError,
    RejectedMsgError,
    SubscriptionError,
    RxMsgTooBigError,
    Acknowledgement,
    AssuredPublishingUp,
    AssuredDeliveryDown,
    TeUnsubscribeError,
    TeUnsubscribeOk,
    CanSend,
    ReconnectingNotice,
    ReconnectedNotice,
    ProvisionError,
    ProvisionOk,
    SubscriptionOk,
    VirtualRouterNameChanged,
    ModifypropOk,
    ModifypropFail,
    RepublishUnackedMessages,
}

/// The engine's number for a session event.
pub open spec fn session_event_raw(e: SessionEvent) -> int {
    match e {
        SessionEvent::UpNotice => 0,
        SessionEvent::DownError => 1,
        SessionEvent::ConnectFailedError => 2,
        SessionEvent::RejectedMsgError => 3,
        SessionEvent::SubscriptionError => 4,
        SessionEvent::RxMsgTooBigError => 5,
        SessionEvent::Acknowledgement => 6,
        SessionEvent::AssuredPublishingUp => 7,
        SessionEvent::AssuredDeliveryDown => 8,
        SessionEvent::TeUnsubscribeError => 9,
        SessionEvent::TeUnsubscribeOk => 10,
        SessionEvent::CanSend => 11,
        SessionEvent::ReconnectingNotice => 12,
        SessionEvent::ReconnectedNotice => 13,
        SessionEvent::ProvisionError => 14,
        SessionEvent::ProvisionOk => 15,
        SessionEvent::SubscriptionOk => 16,
        SessionEvent::VirtualRouterNameChanged => 17,
        SessionEvent::ModifypropOk => 18,
        SessionEvent::ModifypropFail => 19,
        SessionEvent::RepublishUnackedMessages => 20,
    }
}

impl SessionEvent {
    /// The event with the engine's number `value`; an unknown number is no
    /// event, and a callback drops it.
    pub fn from_u32(value: u32) -> (r: Option<Self>)
        ensures
            r matches Some(e) ==> session_event_raw(e) == value as int,
            r is None <==> value > 20,
    {
        match value {
            0 => Some(SessionEvent::UpNotice),
            1 => Some(SessionEvent::DownError),
            2 => Some(SessionEvent::ConnectFailedError),
            3 => Some(SessionEvent::RejectedMsgError),
            4 => Some(SessionEvent::SubscriptionError),
            5 => Some(SessionEvent::RxMsgTooBigError),
            6 => Some(SessionEvent::Acknowledgement),
            7 => Some(SessionEvent::AssuredPublishingUp),
            8 => Some(SessionEvent::AssuredDeliveryDown),
            9 => Some(SessionEvent::TeUnsubscribeError),
            10 => Some(SessionEvent::TeUnsubscribeOk),
            11 => Some(SessionEvent::CanSend),
            12 => Some(SessionEvent::ReconnectingNotice),
            13 => Some(SessionEvent::ReconnectedNotice),
            14 => Some(SessionEvent::ProvisionError),
            15 => Some(SessionEvent::ProvisionOk),
            16 => Some(SessionEvent::SubscriptionOk),
            17 => Some(SessionEvent::VirtualRouterNameChanged),
            18 => Some(SessionEvent::ModifypropOk),
            19 => Some(SessionEvent::ModifypropFail),
            20 => Some(SessionEvent::RepublishUnackedMessages),
            _ => None,
        }
    }

    /// The engine's number for this event.
    pub fn to_u32(&self) -> (r: u32)
        ensures
            r as int == session_event_raw(*self),
    {
        match self {
            SessionEvent::UpNotice => 0,
            SessionEvent::DownError => 1,
            SessionEvent::ConnectFailedError => 2,
            SessionEvent::RejectedMsgError => 3,
            SessionEvent::SubscriptionError => 4,
            SessionEvent::RxMsgTooBigError => 5,
            SessionEvent::Acknowledgement => 6,
            SessionEvent::AssuredPublishingUp => 7,
            SessionEvent::AssuredDeliveryDown => 8,
            SessionEvent::TeUnsubscribeError => 9,
            SessionEvent::TeUnsubscribeOk => 10,
            SessionEvent::CanSend => 11,
            SessionEvent::ReconnectingNotice => 12,
            SessionEvent::ReconnectedNotice => 13,
            SessionEvent::ProvisionError => 14,
            SessionEvent::ProvisionOk => 15,
            SessionEvent::SubscriptionOk => 16,
            SessionEvent::VirtualRouterNameChanged => 17,
            SessionEvent::ModifypropOk => 18,
            SessionEvent::ModifypropFail => 19,
            SessionEvent::RepublishUnackedMessages => 20,
        }
    }
}

/// A change in a flow's state.
#[derive(Debug, Clone, Copy, PartialEq, Eq, Structural)]
pub enum FlowEvent {
    UpNotice,
    DownError,
    BindFailedError,
    RejectedMsgError,
    SessionDown,
    Active,
    Inactive,
    Reconnecting,
    Reconnected,
}

/// The engine's number for a flow event.
pub open spec fn flow_event_raw(e: FlowEvent) -> int {
    match e {
        FlowEvent::UpNotice => 0,
        FlowEvent::DownError => 1,
        FlowEvent::BindFailedError => 2,
        FlowEvent::RejectedMsgError => 3,
        FlowEvent::SessionDown => 4,
        FlowEvent::Active => 5,
        FlowEvent::Inactive => 6,
        FlowEvent::Reconnecting => 7,
        FlowEvent::Reconnected => 8,
    }
}

impl FlowEvent {
    /// The event with the engine's number `value`; an unknown number is no
    /// event, and a callback drops it.
    pub fn from_u32(value: u32) -> (r: Option<Self>)
        ensures
            r matches Some(e) ==> flow_event_raw(e) == value as int,
            r is None <==> value > 8,
    {
        match value {
            0 => Some(FlowEvent::UpNotice),
            1 => Some(FlowEvent::DownError),
            2 => Some(FlowEvent::BindFailedError),
            3 => Some(FlowEvent::RejectedMsgError),
            4 => Some(FlowEvent::SessionDown),
            5 => Some(FlowEvent::Active),
            6 => Some(FlowEvent::Inactive),
            7 => Some(FlowEvent::Reconnecting),
            8 => Some(FlowEvent::Reconnected),
            _ => None,
        }
    }

    /// The engine's number for this event.
    pub fn to_u32(&self) -> (r: u32)
        ensures
            r as int == flow_event_raw(*self),
    {
        match self {
            FlowEvent::UpNotice => 0,
            FlowEvent::DownError => 1,
            FlowEvent::BindFailedError => 2,
            FlowEvent::RejectedMsgError => 3,
            FlowEvent::SessionDown => 4,
            FlowEvent::Active => 5,
            FlowEvent::Inactive => 6,
            FlowEvent::Reconnecting => 7,
            FlowEvent::Reconnected => 8,
        }
    }
}

} // verus!
