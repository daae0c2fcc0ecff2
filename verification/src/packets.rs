//! The contents of the packets the client sends, as plain values.

use vstd::prelude::*;

use crate::error::ClientError;

verus! {

/// Quality of service of a PUBLISH or of a subscription.
#[derive(Debug, Clone, Copy, PartialEq, Eq, Structural)]
pub enum QoS {
    AtMostOnce,
    AtLeastOnce,
    ExactlyOnce,
}

/// When the broker sends retained messages for a new subscription.
#[derive(Debug, Clone, Copy, PartialEq, Eq, Structural)]
pub enum RetainHandling {
    AtSubscribe,
    AtSubscribeNew,
    NoAtSubscribe,
}

/// MQTT 5.0 options of one topic filter in a SUBSCRIBE.
#[derive(Debug, Clone, Copy, PartialEq, Eq, Structural)]
pub struct SubscriptionOptions {
    pub qos: QoS,
    pub no_local: bool,
    pub retain_as_published: bool,
    pub retain_handling: RetainHandling,
}

/// Options of a CONNECT that the caller chooses.
#[derive(Debug, Clone, Copy, PartialEq, Eq, Structural)]
pub struct ConnectOptions {
    pub clean_session: bool,
    pub keep_alive: u16,
    pub session_expiry_interval: Option<u32>,
    /// Receive Maximum; zero is not a valid value.
    pub receive_max: Option<u16>,
    pub max_packet_size: Option<u32>,
}

/// The contents of a CONNECT, beside the will and the credentials.
#[derive(Debug, Clone)]
pub struct ConnectFields {
    pub clean_start: bool,
    pub keep_alive: u16,
    pub session_expiry_interval_secs: u32,
    pub receive_max: Option<u16>,
    pub max_packet_size: Option<u32>,
    pub topic_alias_max: u16,
    pub request_problem_info: bool,
    pub request_response_info: bool,
    pub client_id: String,
}

/// `v` where it is non-zero; zero stands for "absent".
pub open spec fn non_zero(v: Option<u32>) -> Option<u32> {
    match v {
        Some(x) => if x != 0 { Some(x) } else { None },
        None => None,
    }
}

/// A non-zero value is kept unchanged and only zero is dropped: every
/// non-zero message expiry interval or maximum packet size is sent as given.
pub proof fn lemma_non_zero_keeps_values(v: Option<u32>)
    ensures
        forall|x: u32| x != 0 ==> #[trigger] non_zero(Some(x)) == Some(x),
        non_zero(Some(0u32)) is None,
        non_zero(None) is None,
        non_zero(v) is Some ==> non_zero(v) == v,
{
}

/// The properties asked for carry a non-zero message expiry interval exactly
/// as given; the CONNECT carries a non-zero maximum packet size exactly as
/// given.
pub proof fn lemma_expiry_and_packet_size_sent_unchanged(
    p: PublishProps,
    payload_format_indicator: Option<bool>,
    x: u32,
    response_topic: Option<&str>,
    correlation_data: Option<&[u8]>,
    content_type: Option<&str>,
    user_properties: Option<&[(String, String)]>,
    f: ConnectFields,
    opts: ConnectOptions,
)
    ensures
        x != 0 && props_from(
            p,
            payload_format_indicator,
            Some(x),
            response_topic,
            correlation_data,
            content_type,
            user_properties,
        ) ==> p.message_expiry_interval == Some(x),
        x != 0 && f.max_packet_size == non_zero(opts.max_packet_size) && opts.max_packet_size
            == Some(x) ==> f.max_packet_size == Some(x),
{
}

fn keep_non_zero(v: Option<u32>) -> (r: Option<u32>)
    ensures
        r == non_zero(v),
{
    match v {
        Some(x) => if x != 0 { Some(x) } else { None },
        None => None,
    }
}

impl ConnectOptions {
    /// The options of a plain connect: clean session, 60 s keep-alive, and
    /// everything else left to the broker.
    pub fn defaults() -> (r: Self)
        ensures
            r == (ConnectOptions {
                clean_session: true,
                keep_alive: 60,
                session_expiry_interval: None,
                receive_max: None,
                max_packet_size: None,
            }),
    {
        ConnectOptions {
            clean_session: true,
            keep_alive: 60,
            session_expiry_interval: None,
            receive_max: None,
            max_packet_size: None,
        }
    }
}

/// The CONNECT for `client_id` with `opts`: an absent session expiry is sent as
/// zero, a zero maximum packet size is left out, and no topic aliases, problem
/// information or response information are asked for.
pub fn connect_fields(client_id: &str, opts: &ConnectOptions) -> (r: ConnectFields)
    requires
        opts.receive_max != Some(0u16),
    ensures
        r.clean_start == opts.clean_session,
        r.keep_alive == opts.keep_alive,
        r.session_expiry_interval_secs == match opts.session_expiry_interval {
            Some(s) => s,
            None => 0,
        },
        r.receive_max == opts.receive_max,
        r.max_packet_size == non_zero(opts.max_packet_size),
        r.topic_alias_max == 0,
        !r.request_problem_info,
        !r.request_response_info,
        r.client_id@ == client_id@,
{
    ConnectFields {
        clean_start: opts.clean_session,
        keep_alive: opts.keep_alive,
        session_expiry_interval_secs: match opts.session_expiry_interval {
            Some(s) => s,
            None => 0,
        },
        receive_max: opts.receive_max,
        max_packet_size: keep_non_zero(opts.max_packet_size),
        topic_alias_max: 0,
        request_problem_info: false,
        request_response_info: false,
        client_id: client_id.to_owned(),
    }
}

/// MQTT 5.0 properties of a PUBLISH.
#[derive(Debug, Clone)]
pub struct PublishProps {
    pub is_utf8_payload: bool,
    pub message_expiry_interval: Option<u32>,
    pub response_topic: Option<String>,
    pub correlation_data: Option<Vec<u8>>,
    pub content_type: Option<String>,
    pub user_properties: Vec<(String, String)>,
}

/// The contents of a PUBLISH.
#[derive(Debug, Clone)]
pub struct PublishFields {
    pub dup: bool,
    pub retain: bool,
    pub qos: QoS,
    pub topic: String,
    pub packet_id: Option<u16>,
    pub payload: Vec<u8>,
    pub properties: Option<PublishProps>,
}

/// `a` and `b` hold the same pairs of strings, in the same order.
pub open spec fn same_pairs(a: Seq<(String, String)>, b: Seq<(String, String)>) -> bool {
    &&& a.len() == b.len()
    &&& forall|i: int| 0 <= i < a.len() ==> (#[trigger] a[i]).0@ == b[i].0@ && a[i].1@ == b[i].1@
}

/// `o` holds a copy of the string `s` holds, if any.
pub open spec fn same_str(o: Option<String>, s: Option<&str>) -> bool {
    match (o, s) {
        (Some(a), Some(b)) => a@ == b@,
        (None, None) => true,
        _ => false,
    }
}

/// `o` holds a copy of the bytes `s` holds, if any.
pub open spec fn same_bytes(o: Option<Vec<u8>>, s: Option<&[u8]>) -> bool {
    match (o, s) {
        (Some(a), Some(b)) => a@ == b@,
        (None, None) => true,
        _ => false,
    }
}

fn copy_str(s: Option<&str>) -> (r: Option<String>)
    ensures
        same_str(r, s),
{
    match s {
        Some(t) => Some(t.to_owned()),
        None => None,
    }
}

fn copy_pairs(src: &[(String, String)]) -> (r: Vec<(String, String)>)
    ensures
        same_pairs(r@, src@),
{
    let mut out: Vec<(String, String)> = Vec::new();
    let mut i: usize = 0;
    while i < src.len()
        invariant
            0 <= i <= src@.len(),
            same_pairs(out@, src@.take(i as int)),
        decreases src@.len() - i,
    {
        let k = src[i].0.clone();
        let v = src[i].1.clone();
        out.push((k, v));
        i += 1;
    }
    assert(src@.take(src@.len() as int) =~= src@);
    out
}

/// `r` are the properties of a PUBLISH asked for with these arguments: the
/// payload is marked UTF-8 only when asked, a zero message expiry interval is
/// left out, no user property list stands for an empty one, and the optional
/// strings and bytes are copies.
pub open spec fn props_from(
    r: PublishProps,
    payload_format_indicator: Option<bool>,
    message_expiry_interval: Option<u32>,
    response_topic: Option<&str>,
    correlation_data: Option<&[u8]>,
    content_type: Option<&str>,
    user_properties: Option<&[(String, String)]>,
) -> bool {
    &&& r.is_utf8_payload == (payload_format_indicator == Some(true))
    &&& r.message_expiry_interval == non_zero(message_expiry_interval)
    &&& same_str(r.response_topic, response_topic)
    &&& same_bytes(r.correlation_data, correlation_data)
    &&& same_str(r.content_type, content_type)
    &&& match user_properties {
        Some(ups) => same_pairs(r.user_properties@, ups@),
        None => r.user_properties@.len() == 0,
    }
}

/// Properties that carry nothing: no UTF-8 mark, no expiry, no response topic,
/// correlation data or content type, no user property.
pub open spec fn empty_props(p: PublishProps) -> bool {
    &&& !p.is_utf8_payload
    &&& p.message_expiry_interval is None
    &&& p.response_topic is None
    &&& p.correlation_data is None
    &&& p.content_type is None
    &&& p.user_properties@.len() == 0
}

/// The properties of a PUBLISH: the payload is marked UTF-8 only when asked, a
/// zero message expiry interval is left out, no user property list stands for
/// an empty one, and the optional strings and bytes are copied.
pub fn publish_properties(
    payload_format_indicator: Option<bool>,
    message_expiry_interval: Option<u32>,
    response_topic: Option<&str>,
    correlation_data: Option<&[u8]>,
    content_type: Option<&str>,
    user_properties: Option<&[(String, String)]>,
) -> (r: PublishProps)
    ensures
        props_from(
            r,
            payload_format_indicator,
            message_expiry_interval,
            response_topic,
            correlation_data,
            content_type,
            user_properties,
        ),
{
    PublishProps {
        is_utf8_payload: match payload_format_indicator {
            Some(b) => b,
            None => false,
        },
        message_expiry_interval: keep_non_zero(message_expiry_interval),
        response_topic: copy_str(response_topic),
        correlation_data: match correlation_data {
            Some(d) => Some(vstd::slice::slice_to_vec(d)),
            None => None,
        },
        content_type: copy_str(content_type),
        user_properties: match user_properties {
            Some(ups) => copy_pairs(ups),
            None => Vec::new(),
        },
    }
}

/// The PUBLISH of `payload` to `topic` with the given flags, packet identifier
/// and properties.
pub fn publish_fields(
    topic: &str,
    payload: &[u8],
    qos: QoS,
    retain: bool,
    dup: bool,
    packet_id: Option<u16>,
    properties: Option<PublishProps>,
) -> (r: PublishFields)
    ensures
        r.topic@ == topic@,
        r.payload@ == payload@,
        r.qos == qos,
        r.retain == retain,
        r.dup == dup,
        r.packet_id == packet_id,
        r.properties == properties,
{
    PublishFields {
        dup,
        retain,
        qos,
        topic: topic.to_owned(),
        packet_id,
        payload: vstd::slice::slice_to_vec(payload),
        properties,
    }
}

/// `f` is the PUBLISH of `payload` to `topic` with these flags and packet
/// identifier (its properties aside).
pub open spec fn publish_shape(
    f: PublishFields,
    topic: Seq<char>,
    payload: Seq<u8>,
    qos: QoS,
    retain: bool,
    dup: bool,
    packet_id: Option<u16>,
) -> bool {
    &&& f.topic@ == topic
    &&& f.payload@ == payload
    &&& f.qos == qos
    &&& f.retain == retain
    &&& f.dup == dup
    &&& f.packet_id == packet_id
}

/// The PUBLISH that replays a message under a packet identifier the caller
/// chooses, with the DUP flag the caller chooses and no properties, whatever the
/// QoS; no packet identifier is taken from a session.
pub fn replay_publish_fields(
    topic: &str,
    payload: &[u8],
    qos: QoS,
    retain: bool,
    dup: bool,
    packet_id: u16,
) -> (r: PublishFields)
    requires
        packet_id != 0,
    ensures
        publish_shape(r, topic@, payload@, qos, retain, dup, Some(packet_id)),
        r.properties is None,
{
    publish_fields(topic, payload, qos, retain, dup, Some(packet_id), None)
}

/// The contents of a SUBSCRIBE.
#[derive(Debug, Clone)]
pub struct SubscribeFields {
    pub packet_id: u16,
    pub subscription_id: Option<u32>,
    pub topic_filters: Vec<(String, SubscriptionOptions)>,
}

/// The default options of a subscription at `qos`: local messages delivered,
/// retain flag not kept, retained messages sent at subscribe time.
pub open spec fn spec_default_options(qos: QoS) -> SubscriptionOptions {
    SubscriptionOptions {
        qos,
        no_local: false,
        retain_as_published: false,
        retain_handling: RetainHandling::AtSubscribe,
    }
}

pub fn default_options(qos: QoS) -> (r: SubscriptionOptions)
    ensures
        r == spec_default_options(qos),
{
    SubscriptionOptions {
        qos,
        no_local: false,
        retain_as_published: false,
        retain_handling: RetainHandling::AtSubscribe,
    }
}

/// The SUBSCRIBE of one topic filter with `options`.
pub fn subscribe_fields(
    packet_id: u16,
    topic: &str,
    options: SubscriptionOptions,
    subscription_id: Option<u32>,
) -> (r: SubscribeFields)
    ensures
        r.packet_id == packet_id,
        r.subscription_id == subscription_id,
        r.topic_filters@.len() == 1,
        r.topic_filters@[0].0@ == topic@,
        r.topic_filters@[0].1 == options,
{
    let mut filters: Vec<(String, SubscriptionOptions)> = Vec::new();
    filters.push((topic.to_owned(), options));
    SubscribeFields { packet_id, subscription_id, topic_filters: filters }
}

/// The SUBSCRIBE of several topic filters in one packet, in the given order,
/// each at its own QoS with the default options.
pub fn subscribe_many_fields(packet_id: u16, filters: &[(&str, QoS)]) -> (r: SubscribeFields)
    ensures
        r.packet_id == packet_id,
        r.subscription_id is None,
        r.topic_filters@.len() == filters@.len(),
        forall|i: int|
            0 <= i < filters@.len() ==> (#[trigger] r.topic_filters@[i]).0@ == filters@[i].0@
                && r.topic_filters@[i].1 == spec_default_options(filters@[i].1),
{
    let mut out: Vec<(String, SubscriptionOptions)> = Vec::new();
    let mut i: usize = 0;
    while i < filters.len()
        invariant
            0 <= i <= filters@.len(),
            out@.len() == i,
            forall|j: int|
                0 <= j < i ==> (#[trigger] out@[j]).0@ == filters@[j].0@ && out@[j].1
                    == spec_default_options(filters@[j].1),
        decreases filters@.len() - i,
    {
        let (topic, qos) = filters[i];
        out.push((topic.to_owned(), default_options(qos)));
        i += 1;
    }
    SubscribeFields { packet_id, subscription_id: None, topic_filters: out }
}

/// A Subscription Identifier as given, when it is not zero.
pub fn checked_subscription_id(id: u32) -> (r: Result<u32, ClientError>)
    ensures
        r == if id == 0 {
            Err::<u32, ClientError>(ClientError::ZeroSubscriptionId)
        } else {
            Ok(id)
        },
{
    if id == 0 {
        Err(ClientError::ZeroSubscriptionId)
    } else {
        Ok(id)
    }
}

/// `f` carries exactly one topic filter, `topic` with `options`.
pub open spec fn single_filter(f: SubscribeFields, topic: Seq<char>, options: SubscriptionOptions) -> bool {
    &&& f.topic_filters@.len() == 1
    &&& f.topic_filters@[0].0@ == topic
    &&& f.topic_filters@[0].1 == options
}

/// `f` carries the topic filters of `filters`, in that order, each at its QoS
/// with the default options.
pub open spec fn default_filters(f: SubscribeFields, filters: Seq<(&str, QoS)>) -> bool {
    &&& f.topic_filters@.len() == filters.len()
    &&& forall|i: int|
        0 <= i < filters.len() ==> (#[trigger] f.topic_filters@[i]).0@ == filters[i].0@
            && f.topic_filters@[i].1 == spec_default_options(filters[i].1)
}

/// The contents of an UNSUBSCRIBE.
#[derive(Debug, Clone)]
pub struct UnsubscribeFields {
    pub packet_id: u16,
    pub topic_filters: Vec<String>,
}

/// The UNSUBSCRIBE of one topic filter.
pub fn unsubscribe_fields(packet_id: u16, topic: &str) -> (r: UnsubscribeFields)
    ensures
        r.packet_id == packet_id,
        r.topic_filters@.len() == 1,
        r.topic_filters@[0]@ == topic@,
{
    let mut filters: Vec<String> = Vec::new();
    filters.push(topic.to_owned());
    UnsubscribeFields { packet_id, topic_filters: filters }
}

/// An acknowledgement the client sends, always with reason Success.
#[derive(Debug, Clone, Copy, PartialEq, Eq, Structural)]
pub enum Reply {
    /// PUBACK for a QoS 1 PUBLISH.
    PubAck(u16),
    /// PUBREC for a QoS 2 PUBLISH.
    PubRec(u16),
    /// PUBREL, second step of an outgoing QoS 2 exchange.
    PubRel(u16),
    /// PUBCOMP for a PUBREL.
    PubComp(u16),
}

/// The packet identifier a reply acknowledges.
pub open spec fn reply_packet_id(r: Reply) -> u16 {
    match r {
        Reply::PubAck(id) => id,
        Reply::PubRec(id) => id,
        Reply::PubRel(id) => id,
        Reply::PubComp(id) => id,
    }
}

} // verus!
