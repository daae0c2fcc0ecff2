use rmqtt_test::{
    check_connack, checked_subscription_id, connect_fields, default_options, disconnect_fields,
    disconnect_fields_with_session_expiry, disconnect_reason, finish_ack_wait, publish_fields,
    publish_properties, subscribe_fields, subscribe_many_fields, unsubscribe_fields, AckFailure,
    AckKind, AckWait, AckWaiters, ClientError, ClientSession, ConnectOptions, Inbound, QoS,
    Reaction, Reply, RetainHandling, SubscriptionOptions, NORMAL_DISCONNECTION,
};

#[test]
fn connect_defaults() {
    let opts = ConnectOptions::defaults();
    assert!(opts.clean_session);
    assert_eq!(opts.keep_alive, 60);
    let f = connect_fields("client-1", &opts);
    assert!(f.clean_start);
    assert_eq!(f.keep_alive, 60);
    assert_eq!(f.session_expiry_interval_secs, 0);
    assert_eq!(f.receive_max, None);
    assert_eq!(f.max_packet_size, None);
    assert_eq!(f.topic_alias_max, 0);
    assert!(!f.request_problem_info);
    assert!(!f.request_response_info);
    assert_eq!(f.client_id, "client-1");
}

#[test]
fn connect_options_are_carried_and_zero_packet_size_dropped() {
    let opts = ConnectOptions {
        clean_session: false,
        keep_alive: 5,
        session_expiry_interval: Some(300),
        receive_max: Some(10),
        max_packet_size: Some(0),
    };
    let f = connect_fields("c", &opts);
    assert!(!f.clean_start);
    assert_eq!(f.keep_alive, 5);
    assert_eq!(f.session_expiry_interval_secs, 300);
    assert_eq!(f.receive_max, Some(10));
    assert_eq!(f.max_packet_size, None);
    let f2 = connect_fields("c", &ConnectOptions { max_packet_size: Some(1024), ..opts });
    assert_eq!(f2.max_packet_size, Some(1024));
}

#[test]
fn connack_outcomes() {
    assert_eq!(check_connack(&Inbound::ConnectAck { reason: 0 }), Ok(()));
    assert_eq!(
        check_connack(&Inbound::ConnectAck { reason: 135 }),
        Err(ClientError::ConnectRefused(135))
    );
    assert_eq!(check_connack(&Inbound::PingResponse), Err(ClientError::ExpectedConnAck));
}

#[test]
fn packet_ids_count_from_one_and_qos0_takes_none() {
    let mut s: ClientSession<(), ()> = ClientSession::new();
    assert_eq!(s.publish_packet_id(QoS::AtMostOnce), Ok(None));
    assert_eq!(s.publish_packet_id(QoS::AtLeastOnce), Ok(Some(1)));
    assert_eq!(s.publish_packet_id(QoS::ExactlyOnce), Ok(Some(2)));
    assert_eq!(s.next_packet_id(), Ok(3));
}

#[test]
fn packet_id_counter_wraps_through_zero() {
    let mut s: ClientSession<(), ()> = ClientSession::new();
    let mut last = 0u16;
    for _ in 0..65535 {
        last = s.next_packet_id().unwrap();
    }
    assert_eq!(last, 65535);
    assert_eq!(s.next_packet_id(), Err(ClientError::PacketIdOverflow));
    assert_eq!(s.next_packet_id(), Ok(1));
}

#[test]
fn publish_contents() {
    let f = publish_fields("a/b", b"hello", QoS::AtLeastOnce, true, false, Some(7), None);
    assert_eq!(f.topic, "a/b");
    assert_eq!(f.payload, b"hello".to_vec());
    assert_eq!(f.qos, QoS::AtLeastOnce);
    assert!(f.retain);
    assert!(!f.dup);
    assert_eq!(f.packet_id, Some(7));
    assert!(f.properties.is_none());
}

#[test]
fn publish_properties_contents() {
    let ups = vec![("k1".to_string(), "v1".to_string()), ("k2".to_string(), "v2".to_string())];
    let p = publish_properties(
        Some(true),
        Some(0),
        Some("reply/to"),
        Some(b"\x01\x02".as_slice()),
        Some("text/plain"),
        Some(ups.as_slice()),
    );
    assert!(p.is_utf8_payload);
    assert_eq!(p.message_expiry_interval, None);
    assert_eq!(p.response_topic.as_deref(), Some("reply/to"));
    assert_eq!(p.correlation_data, Some(vec![1u8, 2u8]));
    assert_eq!(p.content_type.as_deref(), Some("text/plain"));
    assert_eq!(p.user_properties, ups);

    let q = publish_properties(None, Some(30), None, None, None, None);
    assert!(!q.is_utf8_payload);
    assert_eq!(q.message_expiry_interval, Some(30));
    assert!(q.response_topic.is_none());
    assert!(q.correlation_data.is_none());
    assert!(q.user_properties.is_empty());
}

#[test]
fn subscribe_contents() {
    let opts = SubscriptionOptions {
        qos: QoS::ExactlyOnce,
        no_local: true,
        retain_as_published: true,
        retain_handling: RetainHandling::NoAtSubscribe,
    };
    let f = subscribe_fields(9, "t/#", opts, Some(17));
    assert_eq!(f.packet_id, 9);
    assert_eq!(f.subscription_id, Some(17));
    assert_eq!(f.topic_filters.len(), 1);
    assert_eq!(f.topic_filters[0].0, "t/#");
    assert_eq!(f.topic_filters[0].1, opts);

    let many = subscribe_many_fields(4, &[("a", QoS::AtMostOnce), ("b/+", QoS::ExactlyOnce)]);
    assert_eq!(many.packet_id, 4);
    assert_eq!(many.subscription_id, None);
    assert_eq!(many.topic_filters.len(), 2);
    assert_eq!(many.topic_filters[0].0, "a");
    assert_eq!(many.topic_filters[0].1, default_options(QoS::AtMostOnce));
    assert_eq!(many.topic_filters[1].0, "b/+");
    assert_eq!(many.topic_filters[1].1.qos, QoS::ExactlyOnce);
    assert!(!many.topic_filters[1].1.no_local);
    assert!(!many.topic_filters[1].1.retain_as_published);
    assert_eq!(many.topic_filters[1].1.retain_handling, RetainHandling::AtSubscribe);
}

#[test]
fn zero_subscription_id_is_refused() {
    assert_eq!(checked_subscription_id(0), Err(ClientError::ZeroSubscriptionId));
    assert_eq!(checked_subscription_id(5), Ok(5));
}

#[test]
fn unsubscribe_contents() {
    let u = unsubscribe_fields(12, "x/y");
    assert_eq!(u.packet_id, 12);
    assert_eq!(u.topic_filters, vec!["x/y".to_string()]);
}

#[test]
fn disconnect_reason_codes() {
    assert_eq!(disconnect_reason(None), NORMAL_DISCONNECTION);
    assert_eq!(disconnect_reason(Some(4)), 4);
    assert_eq!(disconnect_reason(Some(0x8E)), 0x8E);
    assert_eq!(disconnect_reason(Some(1)), NORMAL_DISCONNECTION);
    assert_eq!(disconnect_reason(Some(0x85)), NORMAL_DISCONNECTION);
    assert_eq!(disconnect_reason(Some(0xA2)), 0xA2);
    assert_eq!(disconnect_reason(Some(0xA3)), NORMAL_DISCONNECTION);
    let d = disconnect_fields(Some(0x81));
    assert_eq!(d.reason_code, 0x81);
    assert_eq!(d.session_expiry_interval_secs, None);
    let e = disconnect_fields_with_session_expiry(Some(120));
    assert_eq!(e.reason_code, 0);
    assert_eq!(e.session_expiry_interval_secs, Some(120));
}

#[test]
fn incoming_publish_acknowledgements() {
    let mut s: ClientSession<u8, u8> = ClientSession::new();
    let r = s.on_packet(Inbound::Publish { qos: QoS::AtLeastOnce, packet_id: Some(3) });
    assert!(matches!(r, Reaction::Deliver { reply: Some(Reply::PubAck(3)) }));
    let r = s.on_packet(Inbound::Publish { qos: QoS::ExactlyOnce, packet_id: Some(4) });
    assert!(matches!(r, Reaction::Deliver { reply: Some(Reply::PubRec(4)) }));
    let r = s.on_packet(Inbound::Publish { qos: QoS::AtMostOnce, packet_id: None });
    assert!(matches!(r, Reaction::Deliver { reply: None }));
    s.set_auto_puback(false);
    let r = s.on_packet(Inbound::Publish { qos: QoS::AtLeastOnce, packet_id: Some(5) });
    assert!(matches!(r, Reaction::Deliver { reply: None }));
    let r = s.on_packet(Inbound::Publish { qos: QoS::ExactlyOnce, packet_id: Some(6) });
    assert!(matches!(r, Reaction::Deliver { reply: Some(Reply::PubRec(6)) }));
}

#[test]
fn incoming_pubrel_and_pubcomp_switch() {
    let mut s: ClientSession<u8, u8> = ClientSession::new();
    let r = s.on_packet(Inbound::PublishRelease { packet_id: 8 });
    assert!(matches!(r, Reaction::Release { packet_id: 8, reply: Some(Reply::PubComp(8)) }));
    s.set_auto_pubcomp(false);
    let r = s.on_packet(Inbound::PublishRelease { packet_id: 9 });
    assert!(matches!(r, Reaction::Release { packet_id: 9, reply: None }));
}

#[test]
fn suback_answers_its_waiter_once() {
    let mut s: ClientSession<&'static str, u8> = ClientSession::new();
    s.register_suback(1, "first");
    s.register_suback(2, "second");
    match s.on_packet(Inbound::SubscribeAck { packet_id: 2 }) {
        Reaction::SubscribeAcked { packet_id, waiter } => {
            assert_eq!(packet_id, 2);
            assert_eq!(waiter, Some("second"));
        }
        _ => panic!("unexpected reaction"),
    }
    match s.on_packet(Inbound::SubscribeAck { packet_id: 2 }) {
        Reaction::SubscribeAcked { waiter, .. } => assert_eq!(waiter, None),
        _ => panic!("unexpected reaction"),
    }
    match s.on_packet(Inbound::SubscribeAck { packet_id: 1 }) {
        Reaction::SubscribeAcked { waiter, .. } => assert_eq!(waiter, Some("first")),
        _ => panic!("unexpected reaction"),
    }
}

#[test]
fn unsuback_answers_its_waiter() {
    let mut s: ClientSession<u8, &'static str> = ClientSession::new();
    s.register_unsuback(5, "u5");
    match s.on_packet(Inbound::UnsubscribeAck { packet_id: 5 }) {
        Reaction::UnsubscribeAcked { packet_id, waiter } => {
            assert_eq!(packet_id, 5);
            assert_eq!(waiter, Some("u5"));
        }
        _ => panic!("unexpected reaction"),
    }
}

#[test]
fn broker_disconnect_fails_every_waiter() {
    let mut s: ClientSession<u16, u16> = ClientSession::new();
    s.register_suback(1, 10);
    s.register_suback(2, 20);
    s.register_unsuback(3, 30);
    assert!(s.is_connected());
    match s.on_packet(Inbound::Disconnect) {
        Reaction::Closed { mut subacks, unsubacks } => {
            subacks.sort();
            assert_eq!(subacks, vec![10, 20]);
            assert_eq!(unsubacks, vec![30]);
        }
        _ => panic!("unexpected reaction"),
    }
    assert!(!s.is_connected());
    match s.on_packet(Inbound::SubscribeAck { packet_id: 1 }) {
        Reaction::SubscribeAcked { waiter, .. } => assert_eq!(waiter, None),
        _ => panic!("unexpected reaction"),
    }
}

#[test]
fn read_failure_closes_too() {
    let mut s: ClientSession<u8, u8> = ClientSession::new();
    s.register_unsuback(2, 2);
    match s.on_packet(Inbound::ReadFailed) {
        Reaction::Closed { subacks, unsubacks } => {
            assert!(subacks.is_empty());
            assert_eq!(unsubacks, vec![2]);
        }
        _ => panic!("unexpected reaction"),
    }
    assert!(!s.is_connected());
}

#[test]
fn other_packets_change_nothing() {
    let mut s: ClientSession<u8, u8> = ClientSession::new();
    assert!(matches!(
        s.on_packet(Inbound::PublishAck { packet_id: 1, reason: 0x10 }),
        Reaction::PublishAcked { packet_id: 1, reason: 0x10 }
    ));
    assert!(matches!(
        s.on_packet(Inbound::PublishReceived { packet_id: 2, reason: 0 }),
        Reaction::PublishReceived { packet_id: 2, reason: 0 }
    ));
    assert!(matches!(s.on_packet(Inbound::PublishComplete { packet_id: 2 }), Reaction::Completed { packet_id: 2 }));
    assert!(matches!(s.on_packet(Inbound::PingResponse), Reaction::Pong));
    assert!(matches!(s.on_packet(Inbound::Auth), Reaction::AuthReceived));
    assert!(matches!(s.on_packet(Inbound::ConnectAck { reason: 0 }), Reaction::Ignored));
    assert!(matches!(s.on_packet(Inbound::Other), Reaction::Ignored));
    assert!(s.is_connected());
}

#[test]
fn bail_out_after_send_when_disconnected() {
    let mut s: ClientSession<u8, u8> = ClientSession::new();
    s.register_suback(1, 1);
    assert_eq!(s.confirm_subscribe_sent(1), Ok(()));
    s.mark_disconnected();
    assert_eq!(s.confirm_subscribe_sent(1), Err(ClientError::ClosedBeforeSubAck));
    match s.on_packet(Inbound::SubscribeAck { packet_id: 1 }) {
        Reaction::SubscribeAcked { waiter, .. } => assert_eq!(waiter, None),
        _ => panic!("unexpected reaction"),
    }
    s.register_unsuback(2, 2);
    assert_eq!(s.confirm_unsubscribe_sent(2), Err(ClientError::ClosedBeforeUnsubAck));
}

#[test]
fn ack_wait_outcomes() {
    let ok: Result<u8, AckFailure<&str>> = finish_ack_wait(AckKind::SubAck, AckWait::Answered(Ok(3)));
    assert!(matches!(ok, Ok(3)));
    let t: Result<u8, AckFailure<&str>> = finish_ack_wait(AckKind::SubAck, AckWait::TimedOut);
    assert!(matches!(t, Err(AckFailure::Client(ClientError::SubscribeTimeout))));
    let t: Result<u8, AckFailure<&str>> = finish_ack_wait(AckKind::UnsubAck, AckWait::TimedOut);
    assert!(matches!(t, Err(AckFailure::Client(ClientError::UnsubscribeTimeout))));
    let d: Result<u8, AckFailure<&str>> = finish_ack_wait(AckKind::UnsubAck, AckWait::WaiterDropped);
    assert!(matches!(d, Err(AckFailure::Client(ClientError::UnsubAckWaiterDropped))));
    let d: Result<u8, AckFailure<&str>> = finish_ack_wait(AckKind::SubAck, AckWait::WaiterDropped);
    assert!(matches!(d, Err(AckFailure::Client(ClientError::SubAckWaiterDropped))));
    let e: Result<u8, AckFailure<&str>> = finish_ack_wait(AckKind::SubAck, AckWait::Answered(Err("gone")));
    assert!(matches!(e, Err(AckFailure::Connection("gone"))));
}

#[test]
fn waiters_register_take_drain() {
    let mut w: AckWaiters<char> = AckWaiters::new();
    w.register(1, 'a');
    w.register(1, 'b');
    w.register(2, 'c');
    assert!(w.is_waiting(1));
    assert_eq!(w.take(1), Some('b'));
    assert!(!w.is_waiting(1));
    assert_eq!(w.take(1), None);
    w.register(3, 'd');
    let mut all = w.drain();
    all.sort();
    assert_eq!(all, vec!['c', 'd']);
    assert!(!w.is_waiting(2));
    assert!(w.drain().is_empty());
}

#[test]
fn last_pubcomp_switch_decides_later_pubrel() {
    let mut s: ClientSession<u8, u8> = ClientSession::new();
    s.set_auto_pubcomp(false);
    s.register_suback(3, 1);
    let _ = s.next_packet_id();
    let _ = s.on_packet(Inbound::PublishAck { packet_id: 1, reason: 0 });
    assert!(matches!(s.on_packet(Inbound::PublishRelease { packet_id: 9 }), Reaction::Release { packet_id: 9, reply: None }));
    s.set_auto_pubcomp(true);
    let _ = s.publish_packet_id(QoS::AtLeastOnce);
    assert!(matches!(
        s.on_packet(Inbound::PublishRelease { packet_id: 10 }),
        Reaction::Release { packet_id: 10, reply: Some(Reply::PubComp(10)) }
    ));
}

#[test]
fn last_puback_switch_decides_later_publish() {
    let mut s: ClientSession<u8, u8> = ClientSession::new();
    s.set_auto_puback(false);
    s.set_auto_pubcomp(false);
    let _ = s.on_packet(Inbound::PublishRelease { packet_id: 2 });
    assert!(matches!(
        s.on_packet(Inbound::Publish { qos: QoS::AtLeastOnce, packet_id: Some(4) }),
        Reaction::Deliver { reply: None }
    ));
    assert!(matches!(
        s.on_packet(Inbound::Publish { qos: QoS::ExactlyOnce, packet_id: Some(5) }),
        Reaction::Deliver { reply: Some(Reply::PubRec(5)) }
    ));
    s.set_auto_puback(true);
    s.mark_disconnected();
    assert!(matches!(
        s.on_packet(Inbound::Publish { qos: QoS::AtLeastOnce, packet_id: Some(6) }),
        Reaction::Deliver { reply: Some(Reply::PubAck(6)) }
    ));
}

#[test]
fn publish_request_contents() {
    let mut s: ClientSession<u8, u8> = ClientSession::new();
    let f = s.publish_request("t", b"p", QoS::AtMostOnce, true).unwrap();
    assert_eq!(f.packet_id, None);
    assert!(!f.dup);
    assert!(f.retain);
    assert!(f.properties.is_none());
    assert_eq!(f.topic, "t");
    assert_eq!(f.payload, b"p".to_vec());
    let g = s.publish_request("t", b"p", QoS::ExactlyOnce, false).unwrap();
    assert_eq!(g.packet_id, Some(1));
    assert!(!g.dup);
    assert!(g.properties.is_none());
}

#[test]
fn publish_with_properties_request_matches_plain_publish() {
    let mut a: ClientSession<u8, u8> = ClientSession::new();
    let mut b: ClientSession<u8, u8> = ClientSession::new();
    let plain = a.publish_request("x", b"y", QoS::AtLeastOnce, false).unwrap();
    let with = b
        .publish_with_properties_request("x", b"y", QoS::AtLeastOnce, false, None, None, None, None, None, None)
        .unwrap();
    assert_eq!(plain.packet_id, with.packet_id);
    assert_eq!(plain.topic, with.topic);
    assert_eq!(plain.payload, with.payload);
    assert_eq!(plain.dup, with.dup);
    let p = with.properties.unwrap();
    assert!(!p.is_utf8_payload);
    assert!(p.message_expiry_interval.is_none());
    assert!(p.user_properties.is_empty());
    let q = b
        .publish_with_properties_request("x", b"y", QoS::AtMostOnce, false, Some(true), Some(9), None, None, None, None)
        .unwrap();
    assert_eq!(q.packet_id, None);
    assert_eq!(q.properties.unwrap().message_expiry_interval, Some(9));
}

#[test]
fn replay_publish_keeps_given_id_and_dup() {
    let f = rmqtt_test::replay_publish_fields("r", b"z", QoS::AtMostOnce, false, true, 42);
    assert_eq!(f.packet_id, Some(42));
    assert!(f.dup);
    assert!(f.properties.is_none());
    assert_eq!(f.qos, QoS::AtMostOnce);
}

#[test]
fn subscribe_requests_take_packet_ids() {
    let mut s: ClientSession<u8, u8> = ClientSession::new();
    assert_eq!(s.subscribe_with_id_request("a", QoS::AtLeastOnce, 0).unwrap_err(), ClientError::ZeroSubscriptionId);
    let f = s.subscribe_with_id_request("a", QoS::AtLeastOnce, 7).unwrap();
    assert_eq!(f.packet_id, 1);
    assert_eq!(f.subscription_id, Some(7));
    assert_eq!(f.topic_filters[0].1, default_options(QoS::AtLeastOnce));
    let g = s.subscribe_request("b", default_options(QoS::AtMostOnce), None).unwrap();
    assert_eq!(g.packet_id, 2);
    assert_eq!(g.subscription_id, None);
    let m = s.subscribe_many_request(&[("c", QoS::ExactlyOnce)]).unwrap();
    assert_eq!(m.packet_id, 3);
    assert_eq!(m.topic_filters[0].0, "c");
    let u = s.unsubscribe_request("c").unwrap();
    assert_eq!(u.packet_id, 4);
    assert_eq!(u.topic_filters, vec!["c".to_string()]);
}
