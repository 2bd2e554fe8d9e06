use echo_relay::{
    dispatch, forwarded, parse_channel_id, relay_channel, source_key_id, ChannelMapping, ClientListener,
    Dispatch, Dispatcher, DispatcherState, Forwarded, RelayMessage, SendFailure, Step,
    DEFAULT_CAPACITY,
};

fn mapping_of(pairs: &[(&str, &str)]) -> ChannelMapping {
    let mut m = ChannelMapping::new();
    for (k, v) in pairs {
        m.insert_keyed(k, v.to_string());
    }
    m
}

fn msg(id: u64, text: &str) -> RelayMessage {
    RelayMessage::new(id, text.to_string())
}

fn expect_post(step: Step, channel: u64, body: &str) {
    match step {
        Step::Handle(Dispatch::Post { channel_id, text }) => {
            assert_eq!(channel_id, channel);
            assert_eq!(text, body);
        }
        _ => panic!("expected a post"),
    }
}

#[test]
fn mapped_message_is_posted_to_destination() {
    let mut d = Dispatcher::new(mapping_of(&[("111", "222")]));
    expect_post(d.step(Some(msg(111, "hello"))), 222, "hello");
    assert_eq!(d.state(), DispatcherState::Idle);
}

#[test]
fn empty_mapping_posts_nothing() {
    let mut d = Dispatcher::new(mapping_of(&[]));
    match d.step(Some(msg(111, "hi"))) {
        Step::Handle(Dispatch::Unmapped { source_channel_id }) => assert_eq!(source_channel_id, 111),
        _ => panic!("expected the message to be dropped"),
    }
    assert_eq!(d.state(), DispatcherState::Idle);
}

#[test]
fn malformed_destination_is_dropped_and_processing_goes_on() {
    let mut d = Dispatcher::new(mapping_of(&[("111", "not-a-number"), ("333", "444")]));
    match d.step(Some(msg(111, "x"))) {
        Step::Handle(Dispatch::MalformedDestination { source_channel_id, destination }) => {
            assert_eq!(source_channel_id, 111);
            assert_eq!(destination, "not-a-number");
        }
        _ => panic!("expected a malformed destination"),
    }
    assert_eq!(d.state(), DispatcherState::Idle);
    expect_post(d.step(Some(msg(333, "next"))), 444, "next");
}

#[test]
fn second_send_fails_at_capacity_one() {
    let (tx, mut rx) = relay_channel(1).unwrap();
    let listener = ClientListener::new(tx);
    assert!(matches!(listener.on_message(111, "first".to_string()), Forwarded::Queued));
    match listener.on_message(111, "second".to_string()) {
        Forwarded::Dropped { reason, message } => {
            assert_eq!(reason, SendFailure::Full);
            assert_eq!(message.source_channel_id, 111);
            assert_eq!(message.text, "second");
        }
        Forwarded::Queued => panic!("the queue should be full"),
    }
    let got = rx.try_recv().unwrap();
    assert_eq!(got.text, "first");
    assert!(rx.try_recv().is_err());
}

#[test]
fn dropped_message_is_never_delivered() {
    let (tx, mut rx) = relay_channel(2).unwrap();
    let listener = ClientListener::new(tx);
    assert!(matches!(listener.on_message(1, "a".to_string()), Forwarded::Queued));
    assert!(matches!(listener.on_message(2, "b".to_string()), Forwarded::Queued));
    assert!(matches!(listener.on_message(3, "c".to_string()), Forwarded::Dropped { .. }));
    assert_eq!(rx.try_recv().unwrap().text, "a");
    assert_eq!(rx.try_recv().unwrap().text, "b");
    assert!(matches!(listener.on_message(4, "d".to_string()), Forwarded::Queued));
    assert_eq!(rx.try_recv().unwrap().text, "d");
    assert!(rx.try_recv().is_err());
}

#[test]
fn queue_delivers_in_order_and_dispatcher_keeps_it() {
    let (tx, mut rx) = relay_channel(DEFAULT_CAPACITY).unwrap();
    let listener = ClientListener::new(tx);
    for (i, t) in ["one", "two", "three", "four"].iter().enumerate() {
        assert!(matches!(listener.on_message(10 + i as u64, t.to_string()), Forwarded::Queued));
    }
    drop(listener);
    let mut queued = Vec::new();
    while let Ok(m) = rx.try_recv() {
        queued.push(m);
    }
    let ids: Vec<u64> = queued.iter().map(|m| m.source_channel_id).collect();
    assert_eq!(ids, vec![10, 11, 12, 13]);

    let mut d = Dispatcher::new(mapping_of(&[("10", "20"), ("12", "22"), ("13", "+23")]));
    let out = d.dispatch_queued(queued);
    assert_eq!(out.len(), 4);
    let posts: Vec<(u64, String)> = out
        .into_iter()
        .filter_map(|x| match x {
            Dispatch::Post { channel_id, text } => Some((channel_id, text)),
            _ => None,
        })
        .collect();
    assert_eq!(
        posts,
        vec![(20, "one".to_string()), (22, "three".to_string()), (23, "four".to_string())]
    );
}

#[test]
fn send_after_receiver_dropped_is_closed() {
    let (tx, rx) = relay_channel(4).unwrap();
    drop(rx);
    let listener = ClientListener::new(tx);
    match listener.on_message(5, "late".to_string()) {
        Forwarded::Dropped { reason, message } => {
            assert_eq!(reason, SendFailure::Closed);
            assert_eq!(message.text, "late");
        }
        Forwarded::Queued => panic!("the queue is closed"),
    }
}

#[test]
fn zero_capacity_is_refused() {
    assert!(relay_channel(0).is_none());
    assert!(relay_channel(1).is_some());
}

#[test]
fn dispatcher_terminates_only_on_closed_queue() {
    let mut d = Dispatcher::new(mapping_of(&[("1", "2")]));
    assert!(matches!(d.step(None), Step::Stop));
    assert_eq!(d.state(), DispatcherState::Terminated);
    assert!(matches!(d.step(Some(msg(1, "x"))), Step::Stop));
    assert_eq!(d.state(), DispatcherState::Terminated);
    assert!(d.dispatch_queued(vec![msg(1, "y")]).is_empty());
}

#[test]
fn dispatch_decides_each_case() {
    let m = mapping_of(&[("7", "8"), ("9", "x9")]);
    assert!(matches!(dispatch(&m, msg(7, "t")), Dispatch::Post { channel_id: 8, .. }));
    assert!(matches!(dispatch(&m, msg(6, "t")), Dispatch::Unmapped { source_channel_id: 6 }));
    assert!(matches!(
        dispatch(&m, msg(9, "t")),
        Dispatch::MalformedDestination { source_channel_id: 9, .. }
    ));
}

#[test]
fn destination_ids_parse_as_unsigned_decimal() {
    assert_eq!(parse_channel_id("222"), Some(222));
    assert_eq!(parse_channel_id("+42"), Some(42));
    assert_eq!(parse_channel_id("0042"), Some(42));
    assert_eq!(parse_channel_id("0"), Some(0));
    assert_eq!(parse_channel_id("18446744073709551615"), Some(u64::MAX));
    assert_eq!(parse_channel_id("18446744073709551616"), None);
    assert_eq!(parse_channel_id("99999999999999999999"), None);
    assert_eq!(parse_channel_id(""), None);
    assert_eq!(parse_channel_id("+"), None);
    assert_eq!(parse_channel_id("-1"), None);
    assert_eq!(parse_channel_id("12a"), None);
    assert_eq!(parse_channel_id(" 12"), None);
    assert_eq!(parse_channel_id("not-a-number"), None);
}

#[test]
fn source_keys_match_printed_ids_only() {
    assert_eq!(source_key_id("111"), Some(111));
    assert_eq!(source_key_id("0"), Some(0));
    assert_eq!(source_key_id("18446744073709551615"), Some(u64::MAX));
    assert_eq!(source_key_id("0111"), None);
    assert_eq!(source_key_id("+111"), None);
    assert_eq!(source_key_id(""), None);
    assert_eq!(source_key_id("abc"), None);
    assert_eq!(source_key_id("18446744073709551616"), None);
    for id in [0u64, 5, 111, 987654321, u64::MAX] {
        assert_eq!(source_key_id(&id.to_string()), Some(id));
    }
}

#[test]
fn mapping_insert_and_lookup() {
    let mut m = ChannelMapping::new();
    assert_eq!(m.len(), 0);
    assert!(m.insert_keyed("111", "222".to_string()));
    assert!(!m.insert_keyed("0111", "333".to_string()));
    assert!(!m.insert_keyed("abc", "333".to_string()));
    assert_eq!(m.len(), 1);
    assert_eq!(m.lookup(111).map(|s| s.as_str()), Some("222"));
    assert_eq!(m.lookup(112), None);
    m.insert(111, "444".to_string());
    assert_eq!(m.lookup(111).map(|s| s.as_str()), Some("444"));
    assert_eq!(m.len(), 1);
}

#[test]
fn send_results_map_to_outcomes() {
    assert!(matches!(forwarded(Ok(())), Forwarded::Queued));
    match forwarded(Err((SendFailure::Full, msg(8, "kept")))) {
        Forwarded::Dropped { reason, message } => {
            assert_eq!(reason, SendFailure::Full);
            assert_eq!(message.source_channel_id, 8);
            assert_eq!(message.text, "kept");
        }
        Forwarded::Queued => panic!("a refused message is dropped"),
    }
}
