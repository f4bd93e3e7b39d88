//! Properties of a queue or topic endpoint to provision on the broker.
use crate::text::{
    decimal, decimal_u64, flag_entry, is_native_text, native_text, number_entry, push_entry,
    push_flag, push_number,
};
use vstd::prelude::*;
use vstd::string::*;

verus! {

/// Why an endpoint configuration was refused.
#[derive(Debug, Clone, PartialEq, Eq)]
pub enum EndpointPropsBuilderError {
    /// The named argument holds a NUL character.
    InvalidArgs(String),
    /// The named argument must be set.
    MissingRequiredArgs(String),
    /// The named argument is out of range: the field, the allowed range and
    /// the value found.
    InvalidRange(String, String, String),
}

/// The most redeliveries that an endpoint can be configured with.
pub const MAX_MSG_REDELIVERY: u64 = 255;

/// Which endpoint is meant, and its name.
#[derive(Debug, Clone, PartialEq, Eq)]
pub enum EndpointId {
    Queue { name: String },
    Te { name: String },
    ClientName { name: String },
}

impl EndpointId {
    pub open spec fn spec_name(&self) -> Seq<char> {
        match self {
            EndpointId::Queue { name } => name@,
            EndpointId::Te { name } => name@,
            EndpointId::ClientName { name } => name@,
        }
    }

    /// The endpoint's name.
    pub fn name(&self) -> (r: &str)
        ensures
            r@ == self.spec_name(),
    {
        match self {
            EndpointId::Queue { name } => name.as_str(),
            EndpointId::Te { name } => name.as_str(),
            EndpointId::ClientName { name } => name.as_str(),
        }
    }
}

/// Who may do what with a provisioned endpoint.
#[derive(Debug, Clone, Copy, PartialEq, Eq, Structural)]
pub enum EndpointPermission {
    Delete,
    ModifyTopic,
    Consume,
    ReadOnly,
    NoAccess,
}

pub open spec fn permission_text(p: EndpointPermission) -> Seq<char> {
    match p {
        EndpointPermission::Delete => "d"@,
        EndpointPermission::ModifyTopic => "m"@,
        EndpointPermission::Consume => "c"@,
        EndpointPermission::ReadOnly => "r"@,
        EndpointPermission::NoAccess => "n"@,
    }
}

impl EndpointPermission {
    /// The engine's text for this permission.
    pub fn as_str(&self) -> (r: &'static str)
        ensures
            r@ == permission_text(*self),
    {
        match self {
            EndpointPermission::Delete => "d",
            EndpointPermission::ModifyTopic => "m",
            EndpointPermission::Consume => "c",
            EndpointPermission::ReadOnly => "r",
            EndpointPermission::NoAccess => "n",
        }
    }
}

/// Whether a durable queue serves one consumer at a time or several.
#[derive(Debug, Clone, Copy, PartialEq, Eq, Structural)]
pub enum EndpointAccessType {
    Exclusive,
    NonExclusive,
}

pub open spec fn access_type_text(a: EndpointAccessType) -> Seq<char> {
    match a {
        EndpointAccessType::Exclusive => "0"@,
        EndpointAccessType::NonExclusive => "1"@,
    }
}

impl EndpointAccessType {
    /// The engine's text for this access type.
    pub fn as_str(&self) -> (r: &'static str)
        ensures
            r@ == access_type_text(*self),
    {
        match self {
            EndpointAccessType::Exclusive => "0",
            EndpointAccessType::NonExclusive => "1",
        }
    }
}

/// Whether a publisher hears of a message that the endpoint had to discard.
#[derive(Debug, Clone, Copy, PartialEq, Eq, Structural)]
pub enum EndpointDiscardBehavior {
    DiscardNotifySenderOff,
    DiscardNotifySenderOn,
}

pub open spec fn discard_behavior_text(d: EndpointDiscardBehavior) -> Seq<char> {
    match d {
        EndpointDiscardBehavior::DiscardNotifySenderOff => "1"@,
        EndpointDiscardBehavior::DiscardNotifySenderOn => "2"@,
    }
}

impl EndpointDiscardBehavior {
    /// The engine's text for this behaviour.
    pub fn as_str(&self) -> (r: &'static str)
        ensures
            r@ == discard_behavior_text(*self),
    {
        match self {
            EndpointDiscardBehavior::DiscardNotifySenderOff => "1",
            EndpointDiscardBehavior::DiscardNotifySenderOn => "2",
        }
    }
}

/// The settings that an endpoint builder has collected, each one optional.
#[derive(Debug, Clone, PartialEq, Eq)]
pub struct UncheckedEndpointProps {
    pub id: Option<EndpointId>,
    pub durable: Option<bool>,
    pub permission: Option<EndpointPermission>,
    pub access_type: Option<EndpointAccessType>,
    pub quota_mb: Option<u64>,
    pub max_msg_size: Option<u64>,
    pub respects_msg_ttl: Option<bool>,
    pub discard_behavior: Option<EndpointDiscardBehavior>,
    pub max_msg_redelivery: Option<u64>,
}

/// The settings of a validated endpoint configuration.
#[derive(Debug, Clone, PartialEq, Eq)]
pub struct EndpointPropsView {
    pub id: EndpointId,
    pub durable: Option<bool>,
    pub permission: Option<EndpointPermission>,
    pub access_type: Option<EndpointAccessType>,
    pub quota_mb: Option<u64>,
    pub max_msg_size: Option<u64>,
    pub respects_msg_ttl: Option<bool>,
    pub discard_behavior: Option<EndpointDiscardBehavior>,
    pub max_msg_redelivery: Option<u64>,
}

/// Collects endpoint settings; `build` validates them.
pub struct EndpointPropsBuilder {
    props: UncheckedEndpointProps,
}

impl View for EndpointPropsBuilder {
    type V = UncheckedEndpointProps;

    closed spec fn view(&self) -> UncheckedEndpointProps {
        self.props
    }
}

/// A validated endpoint configuration, ready to be handed to the engine.
#[derive(Debug, Clone, PartialEq, Eq)]
pub struct EndpointProps {
    props: EndpointPropsView,
}

impl View for EndpointProps {
    type V = EndpointPropsView;

    closed spec fn view(&self) -> EndpointPropsView {
        self.props
    }
}

/// The validated configuration that a set of endpoint settings stands for.
pub open spec fn checked_endpoint(u: UncheckedEndpointProps, id: EndpointId) -> EndpointPropsView {
    EndpointPropsView {
        id,
        durable: u.durable,
        permission: u.permission,
        access_type: u.access_type,
        quota_mb: u.quota_mb,
        max_msg_size: u.max_msg_size,
        respects_msg_ttl: u.respects_msg_ttl,
        discard_behavior: u.discard_behavior,
        max_msg_redelivery: u.max_msg_redelivery,
    }
}

/// The redelivery count is set above what the engine allows.
pub open spec fn redelivery_out_of_range(u: UncheckedEndpointProps) -> bool {
    u.max_msg_redelivery is Some && u.max_msg_redelivery->0 > MAX_MSG_REDELIVERY
}

/// The key/value entries that name the endpoint.
pub open spec fn endpoint_id_entries(id: EndpointId) -> Seq<Seq<char>> {
    match id {
        EndpointId::Queue { name } => seq!["ENDPOINT_ID"@, "QUEUE"@, "ENDPOINT_NAME"@, name@],
        EndpointId::Te { name } => seq!["ENDPOINT_ID"@, "TE"@, "ENDPOINT_NAME"@, name@],
        EndpointId::ClientName { name } =>
            seq!["ENDPOINT_ID"@, "CLIENT_NAME"@, "ENDPOINT_NAME"@, name@],
    }
}

/// The property table of a validated endpoint configuration: keys and values
/// in turn, in a fixed order, each setting present only when it was set.
pub open spec fn endpoint_table(p: EndpointPropsView) -> Seq<Seq<char>> {
    endpoint_id_entries(p.id)
        + flag_entry("ENDPOINT_DURABLE"@, p.durable)
        + match p.permission {
            Some(x) => seq!["ENDPOINT_PERMISSION"@, permission_text(x)],
            None => Seq::empty(),
        }
        + match p.access_type {
            Some(x) => seq!["ENDPOINT_ACCESSTYPE"@, access_type_text(x)],
            None => Seq::empty(),
        }
        + number_entry("ENDPOINT_QUOTA_MB"@, p.quota_mb)
        + number_entry("ENDPOINT_MAXMSG_SIZE"@, p.max_msg_size)
        + flag_entry("ENDPOINT_RESPECTS_MSG_TTL"@, p.respects_msg_ttl)
        + match p.discard_behavior {
            Some(x) => seq!["ENDPOINT_DISCARD_BEHAVIOR"@, discard_behavior_text(x)],
            None => Seq::empty(),
        }
        + number_entry("ENDPOINT_MAXMSG_REDELIVERY"@, p.max_msg_redelivery)
}

impl EndpointPropsBuilder {
    /// A builder with nothing set.
    pub fn new() -> (r: Self)
        ensures
            r@ == (UncheckedEndpointProps {
                id: None,
                durable: None,
                permission: None,
                access_type: None,
                quota_mb: None,
                max_msg_size: None,
                respects_msg_ttl: None,
                discard_behavior: None,
                max_msg_redelivery: None,
            }),
    {
        EndpointPropsBuilder {
            props: UncheckedEndpointProps {
                id: None,
                durable: None,
                permission: None,
                access_type: None,
                quota_mb: None,
                max_msg_size: None,
                respects_msg_ttl: None,
                discard_behavior: None,
                max_msg_redelivery: None,
            },
        }
    }

    /// Sets which endpoint is meant. Required.
    pub fn id(self, id: EndpointId) -> (r: Self)
        ensures
            r@ == (UncheckedEndpointProps { id: Some(id), ..self@ }),
    {
        EndpointPropsBuilder { props: UncheckedEndpointProps { id: Some(id), ..self.props } }
    }

    /// Sets whether the endpoint is durable.
    pub fn durable(self, durable: bool) -> (r: Self)
        ensures
            r@ == (UncheckedEndpointProps { durable: Some(durable), ..self@ }),
    {
        EndpointPropsBuilder {
            props: UncheckedEndpointProps { durable: Some(durable), ..self.props },
        }
    }

    /// Sets the permissions of other clients on the endpoint.
    pub fn permission(self, permission: EndpointPermission) -> (r: Self)
        ensures
            r@ == (UncheckedEndpointProps { permission: Some(permission), ..self@ }),
    {
        EndpointPropsBuilder {
            props: UncheckedEndpointProps { permission: Some(permission), ..self.props },
        }
    }

    /// Sets the access type; it applies to durable queues only.
    pub fn access_type(self, access_type: EndpointAccessType) -> (r: Self)
        ensures
            r@ == (UncheckedEndpointProps { access_type: Some(access_type), ..self@ }),
    {
        EndpointPropsBuilder {
            props: UncheckedEndpointProps { access_type: Some(access_type), ..self.props },
        }
    }

    /// Sets the quota in megabytes; 0 makes a last-value queue.
    pub fn quota_mb(self, quota_mb: u64) -> (r: Self)
        ensures
            r@ == (UncheckedEndpointProps { quota_mb: Some(quota_mb), ..self@ }),
    {
        EndpointPropsBuilder {
            props: UncheckedEndpointProps { quota_mb: Some(quota_mb), ..self.props },
        }
    }

    /// Sets the largest message, in bytes, that the endpoint stores.
    pub fn max_msg_size(self, max_msg_size: u64) -> (r: Self)
        ensures
            r@ == (UncheckedEndpointProps { max_msg_size: Some(max_msg_size), ..self@ }),
    {
        EndpointPropsBuilder {
            props: UncheckedEndpointProps { max_msg_size: Some(max_msg_size), ..self.props },
        }
    }

    /// Sets whether the endpoint drops messages whose time to live has passed.
    pub fn respects_msg_ttl(self, respects_msg_ttl: bool) -> (r: Self)
        ensures
            r@ == (UncheckedEndpointProps { respects_msg_ttl: Some(respects_msg_ttl), ..self@ }),
    {
        EndpointPropsBuilder {
            props: UncheckedEndpointProps {
                respects_msg_ttl: Some(respects_msg_ttl),
                ..self.props
            },
        }
    }

    /// Sets what the broker tells a publisher whose message it discards.
    pub fn discard_behavior(self, discard_behavior: EndpointDiscardBehavior) -> (r: Self)
        ensures
            r@ == (UncheckedEndpointProps { discard_behavior: Some(discard_behavior), ..self@ }),
    {
        EndpointPropsBuilder {
            props: UncheckedEndpointProps {
                discard_behavior: Some(discard_behavior),
                ..self.props
            },
        }
    }

    /// Sets how often a message is redelivered before it is discarded, at most
    /// 255; 0 means without end.
    pub fn max_msg_redelivery(self, max_msg_redelivery: u64) -> (r: Self)
        ensures
            r@ == (UncheckedEndpointProps {
                max_msg_redelivery: Some(max_msg_redelivery),
                ..self@
            }),
    {
        EndpointPropsBuilder {
            props: UncheckedEndpointProps {
                max_msg_redelivery: Some(max_msg_redelivery),
                ..self.props
            },
        }
    }

    /// Validates the settings: the id must be set, its name must hold no NUL,
    /// and the redelivery count must be at most 255.
    pub fn build(self) -> (r: Result<EndpointProps, EndpointPropsBuilderError>)
        ensures
            self@.id is None ==> (r matches Err(EndpointPropsBuilderError::MissingRequiredArgs(
                f,
            )) && f@ == "id"@),
            self@.id is Some && !is_native_text(self@.id->0.spec_name()) ==> (r matches Err(
                EndpointPropsBuilderError::InvalidArgs(f),
            ) && f@ == "id"@),
            self@.id is Some && is_native_text(self@.id->0.spec_name())
                && redelivery_out_of_range(self@) ==> (r matches Err(
                EndpointPropsBuilderError::InvalidRange(f, a, v),
            ) && f@ == "max_msg_redelivery"@ && a@ == "<= 255"@ && v@ == decimal(
                self@.max_msg_redelivery->0 as nat,
            )),
            self@.id is Some && is_native_text(self@.id->0.spec_name())
                && !redelivery_out_of_range(self@) ==> (r matches Ok(
                p,
            ) && p@ == checked_endpoint(self@, self@.id->0) && p.wf()),
    {
        let props = self.props;
        match props.id {
            None => Err(EndpointPropsBuilderError::MissingRequiredArgs(String::from_str("id"))),
            Some(id) => {
                if !native_text(id.name()) {
                    return Err(EndpointPropsBuilderError::InvalidArgs(String::from_str("id")));
                }
                match props.max_msg_redelivery {
                    Some(x) => {
                        if x > MAX_MSG_REDELIVERY {
                            return Err(
                                EndpointPropsBuilderError::InvalidRange(
                                    String::from_str("max_msg_redelivery"),
                                    String::from_str("<= 255"),
                                    decimal_u64(x),
                                ),
                            );
                        }
                    },
                    None => {},
                }
                Ok(
                    EndpointProps {
                        props: EndpointPropsView {
                            id,
                            durable: props.durable,
                            permission: props.permission,
                            access_type: props.access_type,
                            quota_mb: props.quota_mb,
                            max_msg_size: props.max_msg_size,
                            respects_msg_ttl: props.respects_msg_ttl,
                            discard_behavior: props.discard_behavior,
                            max_msg_redelivery: props.max_msg_redelivery,
                        },
                    },
                )
            },
        }
    }
}

impl EndpointProps {
    /// Every text in the configuration can be handed to the engine.
    pub open spec fn wf(&self) -> bool {
        &&& is_native_text(self@.id.spec_name())
        &&& (self@.max_msg_redelivery matches Some(x) ==> x <= MAX_MSG_REDELIVERY)
    }

    /// The property table that the engine reads: keys and values in turn.
    pub fn to_raw(&self) -> (r: Vec<String>)
        ensures
            r.deep_view() == endpoint_table(self@),
    {
        let p = &self.props;
        let mut table: Vec<String> = Vec::new();
        match &p.id {
            EndpointId::Queue { name } => {
                push_entry(&mut table, "ENDPOINT_ID", String::from_str("QUEUE"));
                push_entry(&mut table, "ENDPOINT_NAME", name.clone());
            },
            EndpointId::Te { name } => {
                push_entry(&mut table, "ENDPOINT_ID", String::from_str("TE"));
                push_entry(&mut table, "ENDPOINT_NAME", name.clone());
            },
            EndpointId::ClientName { name } => {
                push_entry(&mut table, "ENDPOINT_ID", String::from_str("CLIENT_NAME"));
                push_entry(&mut table, "ENDPOINT_NAME", name.clone());
            },
        }
        assert(table.deep_view() =~= endpoint_id_entries(p.id));
        push_flag(&mut table, "ENDPOINT_DURABLE", p.durable);
        match p.permission {
            Some(x) => push_entry(&mut table, "ENDPOINT_PERMISSION", String::from_str(x.as_str())),
            None => {},
        }
        match p.access_type {
            Some(x) => push_entry(&mut table, "ENDPOINT_ACCESSTYPE", String::from_str(x.as_str())),
            None => {},
        }
        push_number(&mut table, "ENDPOINT_QUOTA_MB", p.quota_mb);
        push_number(&mut table, "ENDPOINT_MAXMSG_SIZE", p.max_msg_size);
        push_flag(&mut table, "ENDPOINT_RESPECTS_MSG_TTL", p.respects_msg_ttl);
        match p.discard_behavior {
            Some(x) => push_entry(
                &mut table,
                "ENDPOINT_DISCARD_BEHAVIOR",
                String::from_str(x.as_str()),
            ),
            None => {},
        }
        push_number(&mut table, "ENDPOINT_MAXMSG_REDELIVERY", p.max_msg_redelivery);
        assert(table.deep_view() =~= endpoint_table(self@));
        table
    }
}

} // verus!
