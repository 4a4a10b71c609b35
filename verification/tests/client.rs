use req_response_exporter::cache::{CachedItem, FifoCache, Kind};
use req_response_exporter::client::{
    handle_client, write_header, ClientAction, ClientEvent, ClientState, ClientStep, Reply,
};
use req_response_exporter::text::{line_is, to_decimal};

fn line(text: &str) -> ClientEvent {
    ClientEvent::Line(text.to_string())
}

fn cache_with(bytes: &[u8]) -> FifoCache {
    let mut cache = FifoCache::new(10, 1000);
    cache.push(Kind::Logs, bytes.to_vec());
    cache
}

fn sent(cache: &mut FifoCache) -> u64 {
    let step = handle_client(ClientState::AwaitRequest, cache, line("GET\n"));
    match step.next {
        ClientState::Sending { id } => id,
        other => panic!("unexpected state {other:?}"),
    }
}

fn reply(step: &ClientStep) -> &'static str {
    match &step.action {
        ClientAction::SendReply(reply) => reply.as_str(),
        other => panic!("expected a reply, got {other:?}"),
    }
}

#[test]
fn numbers_are_written_in_decimal() {
    assert_eq!(to_decimal(0), "0");
    assert_eq!(to_decimal(9), "9");
    assert_eq!(to_decimal(10), "10");
    assert_eq!(to_decimal(4_096), "4096");
    assert_eq!(to_decimal(u64::MAX), "18446744073709551615");
}

#[test]
fn white_space_around_a_line_does_not_count() {
    assert!(line_is("GET", "GET"));
    assert!(line_is(" \t\u{3000}GET\u{85}\u{a0}\r\n", "GET"));
    assert!(!line_is("\u{200b}GET", "GET"));
    assert!(!line_is("GE T", "GET"));
    assert!(line_is("\u{2028}\u{205f} ", ""));
}

#[test]
fn replies_have_their_texts() {
    assert_eq!(Reply::ExpectedGet.as_str(), "ERR expected 'GET'\\n");
    assert_eq!(Reply::Done.as_str(), "OK\\n");
    assert_eq!(Reply::StateMismatch.as_str(), "ERR state mismatch\\n");
    assert_eq!(Reply::BadAck.as_str(), "ERR bad ack\\n");
    assert_eq!(Reply::AckTimeout.as_str(), "ERR ack timeout\\n");
}

#[test]
fn header_tells_number_kind_and_length() {
    let item = CachedItem { id: 12, kind: Kind::Traces, bytes: vec![0; 305] };
    assert_eq!(write_header(&item), "ITEM 12 traces 305\\n");
}

#[test]
fn item_is_sent_and_acknowledged() {
    let mut cache = cache_with(b"abc");
    let step = handle_client(ClientState::AwaitRequest, &mut cache, line("GET\r\n"));
    assert_eq!(step.next, ClientState::Sending { id: 1 });
    assert_eq!((step.pdata_sent, step.pdata_count), (1, 1));
    match step.action {
        ClientAction::SendItem { header, body } => {
            assert_eq!(header, "ITEM 1 logs 3\\n");
            assert_eq!(body, b"abc");
        }
        other => panic!("unexpected action {other:?}"),
    }
    let step = handle_client(step.next, &mut cache, ClientEvent::Written);
    assert_eq!(step.next, ClientState::AwaitAck { id: 1 });
    assert!(matches!(step.action, ClientAction::ReadAck));
    let step = handle_client(step.next, &mut cache, line("ACK 1\n"));
    assert_eq!(reply(&step), "OK\\n");
    assert_eq!(step.delivered, Some(1));
    assert!(step.wake_clients);
    let step = handle_client(step.next, &mut cache, ClientEvent::Written);
    assert_eq!(step.next, ClientState::Closed);
    assert!(matches!(step.action, ClientAction::Finish(Ok(()))));
    assert!(cache.reserve_head().is_none());
}

#[test]
fn anything_but_get_is_refused() {
    let mut cache = cache_with(b"abc");
    let step = handle_client(ClientState::AwaitRequest, &mut cache, line("PUT\n"));
    assert_eq!(reply(&step), "ERR expected 'GET'\\n");
    let step = handle_client(step.next, &mut cache, ClientEvent::WriteFailed("gone".to_string()));
    assert!(matches!(step.action, ClientAction::Finish(Err(reason)) if reason == "gone"));
    assert!(cache.reserve_head().is_some());
}

#[test]
fn client_that_leaves_before_asking_is_no_error() {
    let mut cache = cache_with(b"abc");
    let step = handle_client(ClientState::AwaitRequest, &mut cache, ClientEvent::Eof);
    assert!(matches!(step.action, ClientAction::Finish(Ok(()))));
    let failed = ClientEvent::ReadFailed("reset".to_string());
    let step = handle_client(ClientState::AwaitRequest, &mut cache, failed);
    assert!(matches!(step.action, ClientAction::Finish(Err(reason)) if reason == "reset"));
}

#[test]
fn client_waits_until_an_item_is_free() {
    let mut cache = cache_with(b"abc");
    let id = sent(&mut cache);
    let step = handle_client(ClientState::AwaitRequest, &mut cache, line("GET\n"));
    assert_eq!(step.next, ClientState::AwaitItem);
    assert!(matches!(step.action, ClientAction::AwaitChange));
    let step = handle_client(step.next, &mut cache, ClientEvent::CacheChanged);
    assert_eq!(step.next, ClientState::AwaitItem);
    let left = handle_client(ClientState::AwaitAck { id }, &mut cache, ClientEvent::Eof);
    assert!(left.wake_clients);
    assert!(matches!(left.action, ClientAction::Finish(Ok(()))));
    let step = handle_client(step.next, &mut cache, ClientEvent::CacheChanged);
    assert_eq!(step.next, ClientState::Sending { id });
}

#[test]
fn wrong_answer_gives_the_item_back() {
    let mut cache = cache_with(b"abc");
    let id = sent(&mut cache);
    let step = handle_client(ClientState::AwaitAck { id }, &mut cache, line("ACK 2\n"));
    assert_eq!(reply(&step), "ERR bad ack\\n");
    assert!(step.wake_clients);
    assert_eq!(step.delivered, None);
    assert_eq!(sent(&mut cache), id);
    let step = handle_client(ClientState::AwaitAck { id }, &mut cache, line("ACK 01\n"));
    assert_eq!(reply(&step), "ERR bad ack\\n");
}

#[test]
fn late_answer_gives_the_item_back() {
    let mut cache = cache_with(b"abc");
    let id = sent(&mut cache);
    let step = handle_client(ClientState::AwaitAck { id }, &mut cache, ClientEvent::TimedOut);
    assert_eq!(reply(&step), "ERR ack timeout\\n");
    assert_eq!(sent(&mut cache), id);
    let failed = ClientEvent::WriteFailed("gone".to_string());
    let step = handle_client(step.next, &mut cache, failed);
    assert!(matches!(step.action, ClientAction::Finish(Ok(()))));
}

#[test]
fn broken_connection_gives_the_item_back() {
    let mut cache = cache_with(b"abc");
    let id = sent(&mut cache);
    let failed = ClientEvent::ReadFailed("reset".to_string());
    let step = handle_client(ClientState::AwaitAck { id }, &mut cache, failed);
    assert!(matches!(step.action, ClientAction::Finish(Err(reason)) if reason == "read error: reset"));
    assert_eq!(sent(&mut cache), id);
}

#[test]
fn failed_sending_ends_with_the_item_in_flight() {
    let mut cache = cache_with(b"abc");
    let id = sent(&mut cache);
    let failed = ClientEvent::WriteFailed("gone".to_string());
    let step = handle_client(ClientState::Sending { id }, &mut cache, failed);
    assert!(matches!(step.action, ClientAction::Finish(Err(reason)) if reason == "gone"));
    assert!(cache.reserve_head().is_none());
    assert!(cache.release_inflight(id));
}

#[test]
fn answer_for_an_item_not_in_flight_is_refused() {
    let mut cache = cache_with(b"abc");
    let step = handle_client(ClientState::AwaitAck { id: 1 }, &mut cache, line("ACK 1\n"));
    assert_eq!(reply(&step), "ERR state mismatch\\n");
    assert!(!step.wake_clients);
    assert_eq!(step.delivered, None);
    assert_eq!(sent(&mut cache), 1);
}

#[test]
fn answer_counts_after_a_push_into_a_full_cache() {
    let mut cache = FifoCache::new(1, 1000);
    cache.push(Kind::Logs, vec![1]);
    let id = sent(&mut cache);
    cache.push(Kind::Logs, vec![2]);
    let step = handle_client(ClientState::AwaitAck { id }, &mut cache, line("ACK 1\n"));
    assert_eq!(reply(&step), "OK\\n");
    assert_eq!(step.delivered, Some(1));
    assert_eq!(step.pdata_count, 0);
}

#[test]
fn stray_events_do_nothing() {
    let mut cache = cache_with(b"abc");
    for state in [ClientState::Closed, ClientState::AwaitItem, ClientState::Replying] {
        let step = handle_client(state, &mut cache, line("ACK 1\n"));
        assert_eq!(step.next, state);
        assert!(matches!(step.action, ClientAction::Nothing));
        assert!(!step.wake_clients);
    }
}
