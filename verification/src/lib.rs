//! Verified core of an MQTT v5 conformance-test harness: test verdicts and
//! results, and the decision logic of an MQTT v5 client (packet-identifier
//! allocation, the contents of outgoing packets, acknowledgement waiters and
//! the reaction to every packet the broker sends).

pub mod error;
pub mod packets;
pub mod reason;
pub mod session;
pub mod testcase;
pub mod waiters;

pub use error::{finish_ack_wait, AckFailure, AckKind, AckWait, ClientError};
pub use packets::{
    checked_subscription_id, connect_fields, default_options, publish_fields, publish_properties,
    replay_publish_fields,
    subscribe_fields, subscribe_many_fields, unsubscribe_fields, ConnectFields, ConnectOptions,
    PublishFields, PublishProps, QoS, Reply, RetainHandling, SubscribeFields, SubscriptionOptions,
    UnsubscribeFields,
};
pub use reason::{
    disconnect_fields, disconnect_fields_with_session_expiry, disconnect_reason, DisconnectFields,
    NORMAL_DISCONNECTION,
};
pub use session::{check_connack, ClientSession, Inbound, Reaction};
pub use testcase::{Expectation, TestCase, TestResult, TestVerdict};
pub use waiters::AckWaiters;
