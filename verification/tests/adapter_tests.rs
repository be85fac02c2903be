use kafkaesque::adapter::{PollAction, SourceAdapter};
use kafkaesque::event::PollEvent;

fn payload(bytes: &[u8]) -> PollEvent {
    PollEvent::Payload(bytes.to_vec())
}

#[test]
fn construction_holds_capability() {
    let adapter = SourceAdapter::new(7);
    assert!(adapter.holds_capability());
    assert_eq!(adapter.capability_time(), Some(7));
}

#[test]
fn release_clears_capability() {
    let mut adapter = SourceAdapter::new(0);
    adapter.release_capability();
    assert!(!adapter.holds_capability());
    assert_eq!(adapter.capability_time(), None);
}

#[test]
fn scenario_payload_error_payload_none() {
    // The consumer yields "a", then an error, then "b", then no result.
    let adapter = SourceAdapter::new(0);
    let pending = vec![
        payload(b"a"),
        PollEvent::ConsumerError,
        payload(b"b"),
        PollEvent::NoneReady,
        payload(b"c"),
    ];
    let out = adapter.invoke(&pending);
    assert!(out.activated);
    assert_eq!(out.records, vec!["a".to_string(), "b".to_string()]);
    // Draining stops at the no-result marker: "c" is never polled.
    assert_eq!(out.polled, 4);
}

#[test]
fn scenario_undecodable_payload_is_skipped() {
    // 0xff is not valid text; polling continues in the same invocation.
    let adapter = SourceAdapter::new(0);
    let pending = vec![payload(&[0xff]), payload(b"ok"), PollEvent::NoneReady];
    let out = adapter.invoke(&pending);
    assert_eq!(out.records, vec!["ok".to_string()]);
    assert_eq!(out.polled, 3);
}

#[test]
fn only_payload_bearing_results_emit() {
    let adapter = SourceAdapter::new(0);
    let pending = vec![
        PollEvent::MissingPayload,
        payload(b"one"),
        PollEvent::ConsumerError,
        PollEvent::ConsumerError,
        payload(b"two"),
        PollEvent::MissingPayload,
        payload(b"three"),
    ];
    let out = adapter.invoke(&pending);
    assert_eq!(
        out.records,
        vec!["one".to_string(), "two".to_string(), "three".to_string()]
    );
    // No no-result marker: the whole backlog drains in one invocation.
    assert_eq!(out.polled, 7);
}

#[test]
fn emissions_are_insensitive_to_batching() {
    let adapter = SourceAdapter::new(0);
    let whole = vec![payload(b"a"), payload(b"b"), payload(b"c")];
    let whole_out = adapter.invoke(&whole);

    let first = vec![payload(b"a")];
    let second = vec![payload(b"b"), payload(b"c")];
    let mut split_records = adapter.invoke(&first).records;
    split_records.extend(adapter.invoke(&second).records);

    assert_eq!(whole_out.records, split_records);
    assert_eq!(whole_out.records, vec!["a".to_string(), "b".to_string(), "c".to_string()]);

    // The same holds when each invocation ends at a no-result marker.
    let mut marked_records = adapter
        .invoke(&vec![payload(b"a"), PollEvent::NoneReady])
        .records;
    marked_records.extend(
        adapter
            .invoke(&vec![payload(b"b"), payload(b"c"), PollEvent::NoneReady])
            .records,
    );
    assert_eq!(whole_out.records, marked_records);
}

#[test]
fn every_invocation_rearms_while_capability_held() {
    let adapter = SourceAdapter::new(0);
    // Even with nothing to poll, the adapter asks to run again.
    let out = adapter.invoke(&Vec::new());
    assert!(out.activated);
    assert_eq!(out.polled, 0);
    let again = adapter.invoke(&vec![PollEvent::NoneReady]);
    assert!(again.activated);
}

#[test]
fn released_adapter_is_permanently_quiet() {
    let mut adapter = SourceAdapter::new(0);
    adapter.release_capability();
    let pending = vec![payload(b"pending"), PollEvent::NoneReady];
    for _ in 0..3 {
        let out = adapter.invoke(&pending);
        assert!(!out.activated);
        assert_eq!(out.polled, 0);
        assert!(out.records.is_empty());
    }
}

#[test]
fn decode_step_decodes_multibyte_text() {
    // A two-byte encoding of a single character: the decode step must
    // actually decode, not pass the raw bytes through.
    let adapter = SourceAdapter::new(0);
    let pending = vec![payload(&[0xc3, 0xa9]), PollEvent::NoneReady];
    let out = adapter.invoke(&pending);
    assert_eq!(out.records, vec!["\u{e9}".to_string()]);
}

#[test]
fn handle_poll_maps_each_result_to_one_action() {
    let adapter = SourceAdapter::new(0);
    assert!(matches!(
        adapter.handle_poll(&PollEvent::NoneReady),
        PollAction::StopDraining
    ));
    assert!(matches!(
        adapter.handle_poll(&PollEvent::ConsumerError),
        PollAction::SkipError
    ));
    assert!(matches!(
        adapter.handle_poll(&PollEvent::MissingPayload),
        PollAction::SkipMissingPayload
    ));
    assert!(matches!(
        adapter.handle_poll(&payload(&[0xff])),
        PollAction::SkipUndecodable
    ));
    match adapter.handle_poll(&payload(b"text")) {
        PollAction::Emit(text) => assert_eq!(text, "text"),
        other => panic!("expected an emission, got {:?}", other),
    }
}
