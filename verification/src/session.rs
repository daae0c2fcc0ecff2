//! The client's shared state and its reaction to every packet the broker sends.

use vstd::prelude::*;

use crate::error::ClientError;
use crate::packets::{
    default_filters, default_options, empty_props, props_from, publish_fields, publish_properties,
    publish_shape, reply_packet_id, single_filter, spec_default_options, subscribe_fields,
    subscribe_many_fields, unsubscribe_fields, PublishFields, QoS, Reply, SubscribeFields,
    SubscriptionOptions, UnsubscribeFields,
};
use crate::waiters::{lists_all_values, AckWaiters};

verus! {

/// What the connection reader hands to the session: a packet from the broker,
/// reduced to what the client decides on, or the failure of the read.
#[derive(Debug, Clone, Copy, PartialEq, Eq, Structural)]
pub enum Inbound {
    ConnectAck { reason: u8 },
    Publish { qos: QoS, packet_id: Option<u16> },
    PublishAck { packet_id: u16, reason: u8 },
    PublishReceived { packet_id: u16, reason: u8 },
    PublishRelease { packet_id: u16 },
    PublishComplete { packet_id: u16 },
    SubscribeAck { packet_id: u16 },
    UnsubscribeAck { packet_id: u16 },
    PingResponse,
    Disconnect,
    Auth,
    /// A packet a broker does not send to a client.
    Other,
    /// Reading the next packet failed.
    ReadFailed,
}

/// What the reader does with one packet. `S` and `U` are the SUBACK and UNSUBACK
/// waiters.
pub enum Reaction<S, U> {
    /// Hand the PUBLISH to the application, then send `reply` if any.
    Deliver { reply: Option<Reply> },
    /// Report the PUBREL, then send `reply` if any.
    Release { packet_id: u16, reply: Option<Reply> },
    /// Answer the waiter registered for this SUBACK, if any.
    SubscribeAcked { packet_id: u16, waiter: Option<S> },
    /// Report the PUBACK for one of the client's publications.
    PublishAcked { packet_id: u16, reason: u8 },
    /// Report the PUBREC for one of the client's publications.
    PublishReceived { packet_id: u16, reason: u8 },
    /// Answer the waiter registered for this UNSUBACK, if any.
    UnsubscribeAcked { packet_id: u16, waiter: Option<U> },
    /// Note the PUBCOMP.
    Completed { packet_id: u16 },
    /// Note the AUTH.
    AuthReceived,
    /// The PINGRESP needs nothing.
    Pong,
    /// Nothing to do.
    Ignored,
    /// The connection is gone: fail every waiter and stop reading.
    Closed { subacks: Vec<S>, unsubacks: Vec<U> },
}

/// The abstract state of a client session.
pub struct SessionView<S, U> {
    pub connected: bool,
    pub auto_puback: bool,
    pub auto_pubcomp: bool,
    /// The value the packet-identifier counter hands out next.
    pub next_id: u16,
    pub subacks: Map<u16, S>,
    pub unsubacks: Map<u16, U>,
}

/// State shared by a client and the task that reads its connection.
pub struct ClientSession<S, U> {
    connected: bool,
    auto_puback: bool,
    auto_pubcomp: bool,
    next_id: u16,
    subacks: AckWaiters<S>,
    unsubacks: AckWaiters<U>,
}

impl<S, U> View for ClientSession<S, U> {
    type V = SessionView<S, U>;

    closed spec fn view(&self) -> SessionView<S, U> {
        SessionView {
            connected: self.connected,
            auto_puback: self.auto_puback,
            auto_pubcomp: self.auto_pubcomp,
            next_id: self.next_id,
            subacks: self.subacks@,
            unsubacks: self.unsubacks@,
        }
    }
}

/// The counter value that follows `n`; it wraps from 65535 to 0.
pub open spec fn next_counter(n: u16) -> u16 {
    if n == 65535 {
        0
    } else {
        (n + 1) as u16
    }
}

/// The packet identifier obtained from counter value `n`: zero is not a packet
/// identifier.
pub open spec fn spec_packet_id(n: u16) -> Result<u16, ClientError> {
    if n == 0 {
        Err(ClientError::PacketIdOverflow)
    } else {
        Ok(n)
    }
}

/// The packet identifier a PUBLISH at `qos` takes when the counter stands at `n`:
/// none for QoS 0, else the counter value unless it is zero.
pub open spec fn spec_publish_id(n: u16, qos: QoS) -> Result<Option<u16>, ClientError> {
    if qos == QoS::AtMostOnce {
        Ok(None)
    } else {
        match spec_packet_id(n) {
            Ok(id) => Ok(Some(id)),
            Err(e) => Err(e),
        }
    }
}

/// The session after taking the packet identifier of a PUBLISH at `qos`: the
/// counter moves one step unless the QoS is 0.
pub open spec fn after_publish_id<S, U>(old: SessionView<S, U>, qos: QoS) -> SessionView<S, U> {
    if qos == QoS::AtMostOnce {
        old
    } else {
        SessionView { next_id: next_counter(old.next_id), ..old }
    }
}

/// `new` and `r` are the session and result of asking `old` for a PUBLISH of
/// `payload` to `topic` at `qos` with `retain`: the packet identifier is taken
/// as for any PUBLISH, the DUP flag is clear, and on failure nothing is sent.
pub open spec fn publish_step<S, U>(
    old: SessionView<S, U>,
    new: SessionView<S, U>,
    topic: Seq<char>,
    payload: Seq<u8>,
    qos: QoS,
    retain: bool,
    r: Result<PublishFields, ClientError>,
) -> bool {
    &&& new == after_publish_id(old, qos)
    &&& match r {
        Ok(f) => spec_publish_id(old.next_id, qos) == Ok::<Option<u16>, ClientError>(f.packet_id)
            && publish_shape(f, topic, payload, qos, retain, false, f.packet_id),
        Err(e) => spec_publish_id(old.next_id, qos) == Err::<Option<u16>, ClientError>(e),
    }
}

/// `new` and `r` are the session and result of asking `old` for the SUBSCRIBE
/// of `topic` with `options` and `subscription_id`: it takes the next packet
/// identifier, and fails, sending nothing, when that is zero.
pub open spec fn subscribe_step<S, U>(
    old: SessionView<S, U>,
    new: SessionView<S, U>,
    topic: Seq<char>,
    options: SubscriptionOptions,
    subscription_id: Option<u32>,
    r: Result<SubscribeFields, ClientError>,
) -> bool {
    &&& new == (SessionView { next_id: next_counter(old.next_id), ..old })
    &&& match r {
        Ok(f) => spec_packet_id(old.next_id) == Ok::<u16, ClientError>(f.packet_id)
            && f.subscription_id == subscription_id && single_filter(f, topic, options),
        Err(e) => spec_packet_id(old.next_id) == Err::<u16, ClientError>(e),
    }
}

/// `new` and `r` are the session and result of asking `old` for the SUBSCRIBE
/// of `topic` at `qos` under Subscription Identifier `subscription_id`: a zero
/// identifier is refused before a packet identifier is taken; otherwise it is
/// the SUBSCRIBE with the default options and that identifier.
pub open spec fn subscribe_with_id_step<S, U>(
    old: SessionView<S, U>,
    new: SessionView<S, U>,
    topic: Seq<char>,
    qos: QoS,
    subscription_id: u32,
    r: Result<SubscribeFields, ClientError>,
) -> bool {
    if subscription_id == 0 {
        new == old && r == Err::<SubscribeFields, ClientError>(ClientError::ZeroSubscriptionId)
    } else {
        subscribe_step(old, new, topic, spec_default_options(qos), Some(subscription_id), r)
    }
}

/// The acknowledgement the client sends for an incoming PUBLISH: a PUBACK for
/// QoS 1 while automatic PUBACKs are on, a PUBREC for QoS 2, nothing for QoS 0
/// or a PUBLISH without packet identifier.
pub open spec fn publish_reply(qos: QoS, packet_id: Option<u16>, auto_puback: bool) -> Option<Reply> {
    match packet_id {
        Some(id) => if qos == QoS::AtLeastOnce && auto_puback {
            Some(Reply::PubAck(id))
        } else if qos == QoS::ExactlyOnce {
            Some(Reply::PubRec(id))
        } else {
            None
        },
        None => None,
    }
}

/// The acknowledgement the client sends for a PUBREL: a PUBCOMP while automatic
/// PUBCOMPs are on.
pub open spec fn pubrel_reply(packet_id: u16, auto_pubcomp: bool) -> Option<Reply> {
    if auto_pubcomp {
        Some(Reply::PubComp(packet_id))
    } else {
        None
    }
}

/// `a` and `b` agree on both acknowledgement switches.
pub open spec fn same_switches<S, U>(a: SessionView<S, U>, b: SessionView<S, U>) -> bool {
    a.auto_puback == b.auto_puback && a.auto_pubcomp == b.auto_pubcomp
}

/// Step `i` of the run `views` (from `views[i]` to `views[i + 1]`) leaves the
/// automatic-PUBCOMP switch as it was.
pub open spec fn keeps_pubcomp_at<S, U>(views: Seq<SessionView<S, U>>, i: int) -> bool {
    views[i].auto_pubcomp == views[i + 1].auto_pubcomp
}

/// Every step of the run `views` leaves the automatic-PUBCOMP switch as it was:
/// it is made of session calls other than `set_auto_pubcomp` (each of whose
/// contracts states that the switch is kept).
pub open spec fn keeps_pubcomp<S, U>(views: Seq<SessionView<S, U>>) -> bool {
    forall|i: int| 0 <= i < views.len() - 1 ==> #[trigger] keeps_pubcomp_at(views, i)
}

/// Step `i` of the run `views` leaves the automatic-PUBACK switch as it was.
pub open spec fn keeps_puback_at<S, U>(views: Seq<SessionView<S, U>>, i: int) -> bool {
    views[i].auto_puback == views[i + 1].auto_puback
}

/// Every step of the run `views` leaves the automatic-PUBACK switch as it was:
/// it is made of session calls other than `set_auto_puback` (each of whose
/// contracts states that the switch is kept).
pub open spec fn keeps_puback<S, U>(views: Seq<SessionView<S, U>>) -> bool {
    forall|i: int| 0 <= i < views.len() - 1 ==> #[trigger] keeps_puback_at(views, i)
}

/// Events after which the connection is gone.
pub open spec fn closes_connection(pkt: Inbound) -> bool {
    pkt is Disconnect || pkt is ReadFailed
}

/// `new` and `r` are the session and reaction after `pkt` comes in on `old`.
pub open spec fn reacts<S, U>(
    old: SessionView<S, U>,
    pkt: Inbound,
    new: SessionView<S, U>,
    r: Reaction<S, U>,
) -> bool {
    match pkt {
        Inbound::Publish { qos, packet_id } => new == old && r == Reaction::<S, U>::Deliver {
            reply: publish_reply(qos, packet_id, old.auto_puback),
        },
        Inbound::PublishRelease { packet_id } => new == old && r == Reaction::<S, U>::Release {
            packet_id,
            reply: pubrel_reply(packet_id, old.auto_pubcomp),
        },
        Inbound::SubscribeAck { packet_id } => new == (SessionView {
            subacks: old.subacks.remove(packet_id),
            ..old
        }) && r == Reaction::<S, U>::SubscribeAcked {
            packet_id,
            waiter: old.subacks.get(packet_id),
        },
        Inbound::UnsubscribeAck { packet_id } => new == (SessionView {
            unsubacks: old.unsubacks.remove(packet_id),
            ..old
        }) && r == Reaction::<S, U>::UnsubscribeAcked {
            packet_id,
            waiter: old.unsubacks.get(packet_id),
        },
        Inbound::PublishAck { packet_id, reason } => new == old && r
            == Reaction::<S, U>::PublishAcked { packet_id, reason },
        Inbound::PublishReceived { packet_id, reason } => new == old && r
            == Reaction::<S, U>::PublishReceived { packet_id, reason },
        Inbound::PublishComplete { packet_id } => new == old && r == Reaction::<S, U>::Completed {
            packet_id,
        },
        Inbound::Auth => new == old && r == Reaction::<S, U>::AuthReceived,
        Inbound::PingResponse => new == old && r == Reaction::<S, U>::Pong,
        Inbound::Disconnect | Inbound::ReadFailed => {
            &&& new == (SessionView {
                connected: false,
                subacks: Map::<u16, S>::empty(),
                unsubacks: Map::<u16, U>::empty(),
                ..old
            })
            &&& r matches Reaction::Closed { subacks, unsubacks }
            &&& lists_all_values(old.subacks, subacks@)
            &&& lists_all_values(old.unsubacks, unsubacks@)
        },
        Inbound::ConnectAck { .. } | Inbound::Other => new == old && r == Reaction::<S, U>::Ignored,
    }
}

/// The answer to a CONNECT: accepted exactly when it is a CONNACK with reason
/// Success (0).
pub open spec fn spec_check_connack(pkt: Inbound) -> Result<(), ClientError> {
    match pkt {
        Inbound::ConnectAck { reason } => if reason == 0 {
            Ok(())
        } else {
            Err(ClientError::ConnectRefused(reason))
        },
        _ => Err(ClientError::ExpectedConnAck),
    }
}

pub fn check_connack(pkt: &Inbound) -> (r: Result<(), ClientError>)
    ensures
        r == spec_check_connack(*pkt),
{
    match pkt {
        Inbound::ConnectAck { reason } => if *reason == 0 {
            Ok(())
        } else {
            Err(ClientError::ConnectRefused(*reason))
        },
        _ => Err(ClientError::ExpectedConnAck),
    }
}

impl<S, U> ClientSession<S, U> {
    /// The session of a fresh connection: connected, automatic PUBACK and
    /// PUBCOMP on, packet identifiers counted from 1, nothing awaited.
    pub fn new() -> (r: Self)
        ensures
            r@ == (SessionView {
                connected: true,
                auto_puback: true,
                auto_pubcomp: true,
                next_id: 1,
                subacks: Map::<u16, S>::empty(),
                unsubacks: Map::<u16, U>::empty(),
            }),
    {
        ClientSession {
            connected: true,
            auto_puback: true,
            auto_pubcomp: true,
            next_id: 1,
            subacks: AckWaiters::new(),
            unsubacks: AckWaiters::new(),
        }
    }

    pub fn is_connected(&self) -> (r: bool)
        ensures
            r == self@.connected,
    {
        self.connected
    }

    /// The client closes the connection itself.
    pub fn mark_disconnected(&mut self)
        ensures
            final(self)@ == (SessionView { connected: false, ..old(self)@ }),
            same_switches(old(self)@, final(self)@),
    {
        self.connected = false;
    }

    /// Turns the automatic PUBACK for incoming QoS 1 PUBLISH on or off.
    pub fn set_auto_puback(&mut self, enabled: bool)
        ensures
            final(self)@ == (SessionView { auto_puback: enabled, ..old(self)@ }),
            final(self)@.auto_pubcomp == old(self)@.auto_pubcomp,
    {
        self.auto_puback = enabled;
    }

    /// Turns the automatic PUBCOMP for incoming PUBREL on or off.
    pub fn set_auto_pubcomp(&mut self, enabled: bool)
        ensures
            final(self)@ == (SessionView { auto_pubcomp: enabled, ..old(self)@ }),
            final(self)@.auto_puback == old(self)@.auto_puback,
    {
        self.auto_pubcomp = enabled;
    }

    /// Takes the next value of the packet-identifier counter; zero, which the
    /// counter yields once per wrap, is refused.
    pub fn next_packet_id(&mut self) -> (r: Result<u16, ClientError>)
        ensures
            r == spec_packet_id(old(self)@.next_id),
            final(self)@ == (SessionView { next_id: next_counter(old(self)@.next_id), ..old(self)@ }),
            same_switches(old(self)@, final(self)@),
    {
        let n = self.next_id;
        self.next_id = if n == 65535 {
            0
        } else {
            n + 1
        };
        if n == 0 {
            Err(ClientError::PacketIdOverflow)
        } else {
            Ok(n)
        }
    }

    /// The packet identifier of a PUBLISH at `qos`: none for QoS 0, which leaves
    /// the counter alone, else the next one from the counter.
    pub fn publish_packet_id(&mut self, qos: QoS) -> (r: Result<Option<u16>, ClientError>)
        ensures
            same_switches(old(self)@, final(self)@),
            qos == QoS::AtMostOnce ==> r == Ok::<Option<u16>, ClientError>(None) && final(self)@
                == old(self)@,
            qos != QoS::AtMostOnce ==> {
                &&& final(self)@ == (SessionView {
                    next_id: next_counter(old(self)@.next_id),
                    ..old(self)@
                })
                &&& r == match spec_packet_id(old(self)@.next_id) {
                    Ok(id) => Ok(Some(id)),
                    Err(e) => Err(e),
                }
            },
    {
        match qos {
            QoS::AtMostOnce => Ok(None),
            _ => match self.next_packet_id() {
                Ok(id) => Ok(Some(id)),
                Err(e) => Err(e),
            },
        }
    }

    /// The PUBLISH of `payload` to `topic` at `qos` with `retain`: a packet
    /// identifier from the counter unless the QoS is 0, DUP clear, no properties.
    pub fn publish_request(&mut self, topic: &str, payload: &[u8], qos: QoS, retain: bool) -> (r:
        Result<PublishFields, ClientError>)
        ensures
            publish_step(old(self)@, final(self)@, topic@, payload@, qos, retain, r),
            same_switches(old(self)@, final(self)@),
            r matches Ok(f) ==> f.properties is None,
    {
        match self.publish_packet_id(qos) {
            Ok(packet_id) => Ok(publish_fields(topic, payload, qos, retain, false, packet_id, None)),
            Err(e) => Err(e),
        }
    }

    /// The PUBLISH of `payload` to `topic` at `qos` with `retain` and MQTT 5.0
    /// properties: the same PUBLISH as `publish_request`, with the properties
    /// these arguments ask for.
    pub fn publish_with_properties_request(
        &mut self,
        topic: &str,
        payload: &[u8],
        qos: QoS,
        retain: bool,
        payload_format_indicator: Option<bool>,
        message_expiry_interval: Option<u32>,
        response_topic: Option<&str>,
        correlation_data: Option<&[u8]>,
        content_type: Option<&str>,
        user_properties: Option<&[(String, String)]>,
    ) -> (r: Result<PublishFields, ClientError>)
        ensures
            publish_step(old(self)@, final(self)@, topic@, payload@, qos, retain, r),
            same_switches(old(self)@, final(self)@),
            r matches Ok(f) ==> (f.properties matches Some(p) && props_from(
                p,
                payload_format_indicator,
                message_expiry_interval,
                response_topic,
                correlation_data,
                content_type,
                user_properties,
            )),
    {
        match self.publish_packet_id(qos) {
            Ok(packet_id) => {
                let props = publish_properties(
                    payload_format_indicator,
                    message_expiry_interval,
                    response_topic,
                    correlation_data,
                    content_type,
                    user_properties,
                );
                Ok(publish_fields(topic, payload, qos, retain, false, packet_id, Some(props)))
            },
            Err(e) => Err(e),
        }
    }

    /// The SUBSCRIBE of `topic` with `options` and an optional Subscription
    /// Identifier, under the next packet identifier.
    pub fn subscribe_request(
        &mut self,
        topic: &str,
        options: SubscriptionOptions,
        subscription_id: Option<u32>,
    ) -> (r: Result<SubscribeFields, ClientError>)
        ensures
            subscribe_step(old(self)@, final(self)@, topic@, options, subscription_id, r),
            same_switches(old(self)@, final(self)@),
    {
        match self.next_packet_id() {
            Ok(packet_id) => Ok(subscribe_fields(packet_id, topic, options, subscription_id)),
            Err(e) => Err(e),
        }
    }

    /// The SUBSCRIBE of `topic` at `qos` with the default options under a
    /// non-zero Subscription Identifier.
    pub fn subscribe_with_id_request(&mut self, topic: &str, qos: QoS, subscription_id: u32) -> (r:
        Result<SubscribeFields, ClientError>)
        ensures
            subscribe_with_id_step(old(self)@, final(self)@, topic@, qos, subscription_id, r),
            same_switches(old(self)@, final(self)@),
    {
        if subscription_id == 0 {
            return Err(ClientError::ZeroSubscriptionId);
        }
        self.subscribe_request(topic, default_options(qos), Some(subscription_id))
    }

    /// The SUBSCRIBE of several topic filters in one packet, each at its own QoS
    /// with the default options, under the next packet identifier.
    pub fn subscribe_many_request(&mut self, filters: &[(&str, QoS)]) -> (r: Result<
        SubscribeFields,
        ClientError,
    >)
        ensures
            final(self)@ == (SessionView { next_id: next_counter(old(self)@.next_id), ..old(self)@ }),
            same_switches(old(self)@, final(self)@),
            match r {
                Ok(f) => spec_packet_id(old(self)@.next_id) == Ok::<u16, ClientError>(f.packet_id)
                    && f.subscription_id is None && default_filters(f, filters@),
                Err(e) => spec_packet_id(old(self)@.next_id) == Err::<u16, ClientError>(e),
            },
    {
        match self.next_packet_id() {
            Ok(packet_id) => Ok(subscribe_many_fields(packet_id, filters)),
            Err(e) => Err(e),
        }
    }

    /// The UNSUBSCRIBE of `topic` under the next packet identifier.
    pub fn unsubscribe_request(&mut self, topic: &str) -> (r: Result<UnsubscribeFields, ClientError>)
        ensures
            final(self)@ == (SessionView { next_id: next_counter(old(self)@.next_id), ..old(self)@ }),
            same_switches(old(self)@, final(self)@),
            match r {
                Ok(f) => spec_packet_id(old(self)@.next_id) == Ok::<u16, ClientError>(f.packet_id)
                    && f.topic_filters@.len() == 1 && f.topic_filters@[0]@ == topic@,
                Err(e) => spec_packet_id(old(self)@.next_id) == Err::<u16, ClientError>(e),
            },
    {
        match self.next_packet_id() {
            Ok(packet_id) => Ok(unsubscribe_fields(packet_id, topic)),
            Err(e) => Err(e),
        }
    }

    /// Registers the waiter for the SUBACK of `packet_id`.
    pub fn register_suback(&mut self, packet_id: u16, waiter: S)
        ensures
            same_switches(old(self)@, final(self)@),
            final(self)@ == (SessionView {
                subacks: old(self)@.subacks.insert(packet_id, waiter),
                ..old(self)@
            }),
    {
        self.subacks.register(packet_id, waiter);
    }

    /// Registers the waiter for the UNSUBACK of `packet_id`.
    pub fn register_unsuback(&mut self, packet_id: u16, waiter: U)
        ensures
            same_switches(old(self)@, final(self)@),
            final(self)@ == (SessionView {
                unsubacks: old(self)@.unsubacks.insert(packet_id, waiter),
                ..old(self)@
            }),
    {
        self.unsubacks.register(packet_id, waiter);
    }

    /// After a SUBSCRIBE went out: when the connection is gone by now, its
    /// waiter is withdrawn and the subscribe fails.
    pub fn confirm_subscribe_sent(&mut self, packet_id: u16) -> (r: Result<(), ClientError>)
        ensures
            same_switches(old(self)@, final(self)@),
            old(self)@.connected ==> r is Ok && final(self)@ == old(self)@,
            !old(self)@.connected ==> r == Err::<(), ClientError>(ClientError::ClosedBeforeSubAck)
                && final(self)@ == (SessionView {
                subacks: old(self)@.subacks.remove(packet_id),
                ..old(self)@
            }),
    {
        if self.connected {
            Ok(())
        } else {
            let _ = self.subacks.take(packet_id);
            Err(ClientError::ClosedBeforeSubAck)
        }
    }

    /// After an UNSUBSCRIBE went out: when the connection is gone by now, its
    /// waiter is withdrawn and the unsubscribe fails.
    pub fn confirm_unsubscribe_sent(&mut self, packet_id: u16) -> (r: Result<(), ClientError>)
        ensures
            same_switches(old(self)@, final(self)@),
            old(self)@.connected ==> r is Ok && final(self)@ == old(self)@,
            !old(self)@.connected ==> r == Err::<(), ClientError>(
                ClientError::ClosedBeforeUnsubAck,
            ) && final(self)@ == (SessionView {
                unsubacks: old(self)@.unsubacks.remove(packet_id),
                ..old(self)@
            }),
    {
        if self.connected {
            Ok(())
        } else {
            let _ = self.unsubacks.take(packet_id);
            Err(ClientError::ClosedBeforeUnsubAck)
        }
    }

    /// The reader's step: what to do with `pkt`, and the session afterwards.
    pub fn on_packet(&mut self, pkt: Inbound) -> (r: Reaction<S, U>)
        ensures
            same_switches(old(self)@, final(self)@),
            reacts(old(self)@, pkt, final(self)@, r),
    {
        match pkt {
            Inbound::Publish { qos, packet_id } => {
                let reply = match packet_id {
                    Some(id) => if qos == QoS::AtLeastOnce && self.auto_puback {
                        Some(Reply::PubAck(id))
                    } else if qos == QoS::ExactlyOnce {
                        Some(Reply::PubRec(id))
                    } else {
                        None
                    },
                    None => None,
                };
                Reaction::Deliver { reply }
            },
            Inbound::PublishRelease { packet_id } => {
                let reply = if self.auto_pubcomp {
                    Some(Reply::PubComp(packet_id))
                } else {
                    None
                };
                Reaction::Release { packet_id, reply }
            },
            Inbound::SubscribeAck { packet_id } => {
                let waiter = self.subacks.take(packet_id);
                Reaction::SubscribeAcked { packet_id, waiter }
            },
            Inbound::UnsubscribeAck { packet_id } => {
                let waiter = self.unsubacks.take(packet_id);
                Reaction::UnsubscribeAcked { packet_id, waiter }
            },
            Inbound::PublishAck { packet_id, reason } => Reaction::PublishAcked { packet_id, reason },
            Inbound::PublishReceived { packet_id, reason } => Reaction::PublishReceived {
                packet_id,
                reason,
            },
            Inbound::PublishComplete { packet_id } => Reaction::Completed { packet_id },
            Inbound::Auth => Reaction::AuthReceived,
            Inbound::PingResponse => Reaction::Pong,
            Inbound::Disconnect | Inbound::ReadFailed => {
                self.connected = false;
                let subacks = self.subacks.drain();
                let unsubacks = self.unsubacks.drain();
                Reaction::Closed { subacks, unsubacks }
            },
            Inbound::ConnectAck { .. } | Inbound::Other => Reaction::Ignored,
        }
    }
}

/// Every acknowledgement the client sends for an incoming PUBLISH or PUBREL
/// carries that packet's identifier; a QoS 1 PUBLISH is answered with a PUBACK
/// (while automatic PUBACKs are on), a QoS 2 PUBLISH with a PUBREC, and a QoS 0
/// PUBLISH never.
pub proof fn lemma_replies_acknowledge_their_packet(qos: QoS, id: u16, auto_puback: bool, auto_pubcomp: bool)
    ensures
        publish_reply(qos, Some(id), auto_puback) matches Some(rep) ==> reply_packet_id(rep) == id,
        pubrel_reply(id, auto_pubcomp) matches Some(rep) ==> reply_packet_id(rep) == id,
        qos == QoS::AtMostOnce ==> publish_reply(qos, Some(id), auto_puback) is None,
        qos == QoS::AtLeastOnce ==> publish_reply(qos, Some(id), auto_puback) == if auto_puback {
            Some(Reply::PubAck(id))
        } else {
            None
        },
        qos == QoS::ExactlyOnce ==> publish_reply(qos, Some(id), auto_puback) == Some(
            Reply::PubRec(id),
        ),
        publish_reply(qos, None, auto_puback) is None,
{
}

/// A SUBACK answers exactly the waiter registered under its packet identifier,
/// and only once: the waiter is withdrawn, and a second SUBACK for the same
/// identifier finds none.
pub proof fn lemma_suback_answers_registered_waiter<S, U>(
    s: SessionView<S, U>,
    id: u16,
    waiter: S,
    mid: SessionView<S, U>,
    r1: Reaction<S, U>,
    last: SessionView<S, U>,
    r2: Reaction<S, U>,
)
    requires
        reacts(
            (SessionView { subacks: s.subacks.insert(id, waiter), ..s }),
            (Inbound::SubscribeAck { packet_id: id }),
            mid,
            r1,
        ),
        reacts(mid, (Inbound::SubscribeAck { packet_id: id }), last, r2),
    ensures
        r1 == (Reaction::<S, U>::SubscribeAcked { packet_id: id, waiter: Some(waiter) }),
        !mid.subacks.contains_key(id),
        mid.subacks == s.subacks.remove(id),
        r2 == (Reaction::<S, U>::SubscribeAcked { packet_id: id, waiter: None }),
{
    assert(s.subacks.insert(id, waiter).remove(id) =~= s.subacks.remove(id));
}

/// Once the connection is gone it stays gone: no packet brings it back, and a
/// broker DISCONNECT or a failed read leaves no waiter behind.
pub proof fn lemma_connection_loss_is_final<S, U>(
    old: SessionView<S, U>,
    pkt: Inbound,
    new: SessionView<S, U>,
    r: Reaction<S, U>,
)
    requires
        reacts(old, pkt, new, r),
    ensures
        new.connected ==> old.connected,
        closes_connection(pkt) ==> !new.connected && new.subacks.is_empty()
            && new.unsubacks.is_empty(),
        !closes_connection(pkt) ==> new.connected == old.connected,
{
}

/// The counter value `k` steps after `n`.
pub open spec fn counter_after(n: u16, k: nat) -> u16 {
    ((n + k) % 65536) as u16
}

/// Taking one more value from the counter moves it one step further.
pub proof fn lemma_counter_step(n: u16, k: nat)
    ensures
        next_counter(counter_after(n, k)) == counter_after(n, k + 1),
{
    let c = (n + k) % 65536;
    assert(c == (n + k) % 65536);
    if c == 65535 {
        assert((n + k + 1) % 65536 == 0) by (nonlinear_arith)
            requires c == (n + k) % 65536, c == 65535;
    } else {
        assert((n + k + 1) % 65536 == c + 1) by (nonlinear_arith)
            requires c == (n + k) % 65536, c < 65535, 0 <= c;
    }
}

/// Packet identifiers are never zero, and the counter does not repeat a value
/// within 65536 consecutive steps.
pub proof fn lemma_packet_ids_distinct(n: u16, j: nat, k: nat)
    requires
        j < k < 65536,
    ensures
        counter_after(n, j) != counter_after(n, k),
        spec_packet_id(counter_after(n, j)) matches Ok(id) ==> id != 0,
{
    assert((n + j) % 65536 != (n + k) % 65536) by (nonlinear_arith)
        requires j < k < 65536, 0 <= j, 0 <= n < 65536;
}

/// A run of calls that keep the automatic-PUBCOMP switch ends with the value
/// it started with.
pub proof fn lemma_pubcomp_kept<S, U>(views: Seq<SessionView<S, U>>)
    requires
        views.len() >= 1,
        keeps_pubcomp(views),
    ensures
        views[views.len() - 1].auto_pubcomp == views[0].auto_pubcomp,
    decreases views.len(),
{
    if views.len() > 1 {
        let shorter = views.drop_last();
        assert forall|i: int| 0 <= i < shorter.len() - 1 implies #[trigger] keeps_pubcomp_at(
            shorter,
            i,
        ) by {
            assert(keeps_pubcomp_at(views, i));
        }
        lemma_pubcomp_kept(shorter);
        assert(keeps_pubcomp_at(views, views.len() - 2));
    }
}

/// A run of calls that keep the automatic-PUBACK switch ends with the value it
/// started with.
pub proof fn lemma_puback_kept<S, U>(views: Seq<SessionView<S, U>>)
    requires
        views.len() >= 1,
        keeps_puback(views),
    ensures
        views[views.len() - 1].auto_puback == views[0].auto_puback,
    decreases views.len(),
{
    if views.len() > 1 {
        let shorter = views.drop_last();
        assert forall|i: int| 0 <= i < shorter.len() - 1 implies #[trigger] keeps_puback_at(
            shorter,
            i,
        ) by {
            assert(keeps_puback_at(views, i));
        }
        lemma_puback_kept(shorter);
        assert(keeps_puback_at(views, views.len() - 2));
    }
}

/// The last `set_auto_pubcomp(enabled)` decides how a later PUBREL is answered:
/// `views[0]` is the session right after that call (or a fresh session, where
/// the switch is on), and the calls in between are any but `set_auto_pubcomp`. The PUBREL is
/// reported with its identifier and answered with a PUBCOMP for that
/// identifier exactly when `enabled`.
pub proof fn lemma_pubcomp_switch_decides<S, U>(
    views: Seq<SessionView<S, U>>,
    enabled: bool,
    id: u16,
    new: SessionView<S, U>,
    r: Reaction<S, U>,
)
    requires
        views.len() >= 1,
        views[0].auto_pubcomp == enabled,
        keeps_pubcomp(views),
        reacts(views[views.len() - 1], (Inbound::PublishRelease { packet_id: id }), new, r),
    ensures
        r == (Reaction::<S, U>::Release {
            packet_id: id,
            reply: if enabled {
                Some(Reply::PubComp(id))
            } else {
                None
            },
        }),
        new.auto_pubcomp == enabled,
{
    lemma_pubcomp_kept(views);
}

/// The last `set_auto_puback(enabled)` decides how a later PUBLISH is answered:
/// `views[0]` is the session right after that call (or a fresh session, where
/// the switch is on), and the calls in between are any but `set_auto_puback`. The PUBLISH is
/// always handed to the application; a QoS 1 PUBLISH with identifier `id` is
/// answered with a PUBACK for `id` exactly when `enabled`, a QoS 2 one with a
/// PUBREC for `id` whatever `enabled` is, and a QoS 0 one never.
pub proof fn lemma_puback_switch_decides<S, U>(
    views: Seq<SessionView<S, U>>,
    enabled: bool,
    qos: QoS,
    id: u16,
    new: SessionView<S, U>,
    r: Reaction<S, U>,
)
    requires
        views.len() >= 1,
        views[0].auto_puback == enabled,
        keeps_puback(views),
        reacts(views[views.len() - 1], (Inbound::Publish { qos, packet_id: Some(id) }), new, r),
    ensures
        qos == QoS::AtLeastOnce ==> r == (Reaction::<S, U>::Deliver {
            reply: if enabled {
                Some(Reply::PubAck(id))
            } else {
                None
            },
        }),
        qos == QoS::ExactlyOnce ==> r == (Reaction::<S, U>::Deliver {
            reply: Some(Reply::PubRec(id)),
        }),
        qos == QoS::AtMostOnce ==> r == (Reaction::<S, U>::Deliver { reply: None }),
        new.auto_puback == enabled,
{
    lemma_puback_kept(views);
}

/// A PUBLISH with properties whose arguments ask for none is the same PUBLISH
/// as the plain one, from the same session: same packet identifier and counter
/// step, same failure, same topic, payload and flags; only its properties are
/// present, and empty.
pub proof fn lemma_publish_without_properties<S, U>(
    old: SessionView<S, U>,
    topic: Seq<char>,
    payload: Seq<u8>,
    qos: QoS,
    retain: bool,
    new1: SessionView<S, U>,
    r1: Result<PublishFields, ClientError>,
    new2: SessionView<S, U>,
    r2: Result<PublishFields, ClientError>,
)
    requires
        publish_step(old, new1, topic, payload, qos, retain, r1),
        r1 matches Ok(f) ==> f.properties is None,
        publish_step(old, new2, topic, payload, qos, retain, r2),
        r2 matches Ok(f) ==> (f.properties matches Some(p) && props_from(
            p,
            None,
            None,
            None,
            None,
            None,
            None,
        )),
    ensures
        new1 == new2,
        r1 is Ok <==> r2 is Ok,
        r1 matches Err(e1) ==> r2 == Err::<PublishFields, ClientError>(e1),
        r1 matches Ok(f1) ==> (r2 matches Ok(f2) && f1.packet_id == f2.packet_id && publish_shape(
            f2,
            topic,
            payload,
            qos,
            retain,
            false,
            f1.packet_id,
        ) && f1.properties is None && (f2.properties matches Some(p) && empty_props(p))),
{
}

/// A subscribe with a non-zero Subscription Identifier is the subscribe of the
/// same topic with the default options and that identifier.
pub proof fn lemma_subscribe_with_id_is_default_subscribe<S, U>(
    old: SessionView<S, U>,
    new: SessionView<S, U>,
    topic: Seq<char>,
    qos: QoS,
    subscription_id: u32,
    r: Result<SubscribeFields, ClientError>,
)
    requires
        subscription_id != 0,
        subscribe_with_id_step(old, new, topic, qos, subscription_id, r),
    ensures
        subscribe_step(
            old,
            new,
            topic,
            (SubscriptionOptions {
                qos,
                no_local: false,
                retain_as_published: false,
                retain_handling: crate::packets::RetainHandling::AtSubscribe,
            }),
            Some(subscription_id),
            r,
        ),
{
}

/// A PUBACK or PUBREC for one of the client's publications is reported with
/// the broker's packet identifier and reason code exactly as received (a
/// refusal such as 0x87 stays 0x87), and changes nothing in the session.
pub proof fn lemma_publish_acks_reported_as_received<S, U>(
    old: SessionView<S, U>,
    p: u16,
    c: u8,
    new: SessionView<S, U>,
    r: Reaction<S, U>,
)
    ensures
        reacts(old, (Inbound::PublishAck { packet_id: p, reason: c }), new, r) ==> (new == old
            && (r matches Reaction::PublishAcked { packet_id, reason } && packet_id == p && reason
            == c)),
        reacts(old, (Inbound::PublishReceived { packet_id: p, reason: c }), new, r) ==> (new
            == old && (r matches Reaction::PublishReceived { packet_id, reason } && packet_id == p
            && reason == c)),
{
}

/// A PUBLISH at QoS 1 or 2 that is built carries the counter value from before
/// the call as its packet identifier (never zero), and the counter moves on by
/// one; it fails, with a packet-identifier overflow, exactly when that value is
/// zero. A QoS 0 PUBLISH always succeeds, carries no packet identifier and
/// leaves the session unchanged.
pub proof fn lemma_publish_packet_id<S, U>(
    old: SessionView<S, U>,
    new: SessionView<S, U>,
    topic: Seq<char>,
    payload: Seq<u8>,
    qos: QoS,
    retain: bool,
    r: Result<PublishFields, ClientError>,
)
    requires
        publish_step(old, new, topic, payload, qos, retain, r),
    ensures
        qos != QoS::AtMostOnce ==> {
            &&& new.next_id == (if old.next_id == 65535 { 0 } else { old.next_id + 1 })
            &&& (r is Err <==> old.next_id == 0)
            &&& r matches Err(e) ==> e == ClientError::PacketIdOverflow
            &&& r matches Ok(f) ==> f.packet_id == Some(old.next_id) && old.next_id != 0
            &&& r matches Ok(f) ==> f.qos == qos && !f.dup && f.topic@ == topic && f.payload@
                == payload && f.retain == retain
        },
        qos == QoS::AtMostOnce ==> (new == old && (r matches Ok(f) && f.packet_id is None && f.qos
            == qos && !f.dup)),
{
}

/// The answer to a CONNECT is accepted only when it is a CONNACK with reason
/// code 0 (Success); a CONNACK with any other code `c` is refused with exactly
/// that code, and any other packet is refused as not being a CONNACK.
pub proof fn lemma_connack_accepted_only_on_success(pkt: Inbound)
    ensures
        spec_check_connack(pkt) is Ok <==> pkt == (Inbound::ConnectAck { reason: 0 }),
        forall|c: u8|
            c != 0 ==> spec_check_connack(Inbound::ConnectAck { reason: c }) == Err::<
                (),
                ClientError,
            >(ClientError::ConnectRefused(c)),
        !(pkt is ConnectAck) ==> spec_check_connack(pkt) == Err::<(), ClientError>(
            ClientError::ExpectedConnAck,
        ),
{
}

} // verus!
