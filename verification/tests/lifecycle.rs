use ws_client::{Action, Cause, ClientError, Filter, Phase, StreamState, WsClient};

const ENDPOINT: &str = "ws://node.example:26657/websocket";

fn connected_client() -> WsClient {
    let (mut client, _) = WsClient::new(ENDPOINT);
    assert_eq!(client.connected(), Some(Action::SpawnDriver));
    client
}

fn open_vote_stream(client: &mut WsClient) -> usize {
    let stream = match client.subscribe_votes() {
        Ok(Action::Subscribe { stream, .. }) => stream,
        other => panic!("no subscribe request: {other:?}"),
    };
    assert_eq!(client.subscribed(stream, Ok(())), Ok(()));
    stream
}

#[test]
fn new_handle_asks_for_its_connection() {
    let (client, action) = WsClient::new(ENDPOINT);
    assert_eq!(action, Action::Connect { endpoint: ENDPOINT.to_string() });
    assert_eq!(client.endpoint(), ENDPOINT);
    assert_eq!(client.phase(), Phase::Connecting);
    assert_eq!(client.stream_count(), 0);
}

#[test]
fn connection_starts_the_driver_once() {
    let (mut client, _) = WsClient::new(ENDPOINT);
    assert_eq!(client.connected(), Some(Action::SpawnDriver));
    assert_eq!(client.phase(), Phase::Connected);
    assert_eq!(client.connected(), None);
    assert_eq!(client.phase(), Phase::Connected);
}

#[test]
fn failed_connect_gives_connection_error_and_no_driver() {
    let (mut client, _) = WsClient::new("ws://unreachable.example:1/websocket");
    assert_eq!(
        client.connect_failed("connection refused".to_string()),
        Some(ClientError::Connection("connection refused".to_string()))
    );
    assert_eq!(client.phase(), Phase::Terminated);
    assert_eq!(client.connected(), None);
    assert_eq!(client.phase(), Phase::Terminated);
    assert_eq!(
        client.subscribe_votes(),
        Err(ClientError::Subscription(Cause::DriverTerminated))
    );
    assert_eq!(
        client.unsubscribe_votes(),
        Err(ClientError::Unsubscribe(Cause::DriverTerminated))
    );
    assert_eq!(client.stream_count(), 0);
}

#[test]
fn connect_failure_is_ignored_once_connected() {
    let mut client = connected_client();
    assert_eq!(client.connect_failed("late".to_string()), None);
    assert_eq!(client.phase(), Phase::Connected);
}

#[test]
fn requests_before_the_connection_stands_fail() {
    let (mut client, _) = WsClient::new(ENDPOINT);
    assert_eq!(client.subscribe_votes(), Err(ClientError::Subscription(Cause::NotConnected)));
    assert_eq!(client.unsubscribe_votes(), Err(ClientError::Unsubscribe(Cause::NotConnected)));
    assert_eq!(client.phase(), Phase::Connecting);
    assert_eq!(client.stream_count(), 0);
}

#[test]
fn subscribe_votes_asks_for_the_vote_filter() {
    let mut client = connected_client();
    let action = client.subscribe_votes();
    match action {
        Ok(Action::Subscribe { stream, filter }) => {
            assert_eq!(stream, 0);
            assert_eq!(filter.text(), "tm.event = 'Vote'");
        },
        other => panic!("no subscribe request: {other:?}"),
    }
    assert_eq!(client.phase(), Phase::Subscribing);
    assert_eq!(client.stream_count(), 1);
    assert_eq!(client.stream_state(0), Some(StreamState::Pending));
    assert_eq!(client.stream_state(1), None);
}

#[test]
fn three_votes_arrive_in_order() {
    let (mut client, action) = WsClient::new(ENDPOINT);
    assert_eq!(action, Action::Connect { endpoint: ENDPOINT.to_string() });
    assert_eq!(client.connected(), Some(Action::SpawnDriver));
    let stream = open_vote_stream(&mut client);
    assert_eq!(client.stream_state(stream), Some(StreamState::Open));
    let mut seen = Vec::new();
    for vote in ["V1", "V2", "V3"] {
        if let Some(item) = client.next(stream, Some(vote)) {
            seen.push(item);
        }
    }
    assert_eq!(seen, vec!["V1", "V2", "V3"]);
    assert_eq!(client.stream_state(stream), Some(StreamState::Open));
}

#[test]
fn every_item_is_yielded_once_whatever_happens_in_between() {
    let mut client = connected_client();
    let first = open_vote_stream(&mut client);
    let mut seen_first = Vec::new();
    let mut seen_second = Vec::new();
    seen_first.extend(client.next(first, Some(1u64)));
    let second = open_vote_stream(&mut client);
    assert_ne!(first, second);
    seen_second.extend(client.next(second, Some(10u64)));
    seen_first.extend(client.next(first, Some(2u64)));
    assert_eq!(
        client.unsubscribe(Filter::parse("tm.event = 'NewBlock'")).map(|_| ()),
        Ok(())
    );
    seen_first.extend(client.next(first, Some(3u64)));
    seen_second.extend(client.next(second, Some(20u64)));
    assert_eq!(client.next(second, None::<u64>), None);
    seen_second.extend(client.next(second, Some(30u64)));
    seen_first.extend(client.next(first, Some(4u64)));
    assert_eq!(seen_first, vec![1, 2, 3, 4]);
    assert_eq!(seen_second, vec![10, 20]);
    assert_eq!(client.stream_state(first), Some(StreamState::Open));
    assert_eq!(client.stream_state(second), Some(StreamState::Closed));
}

#[test]
fn stream_that_ended_does_not_start_again() {
    let mut client = connected_client();
    let stream = open_vote_stream(&mut client);
    assert_eq!(client.next(stream, Some('a')), Some('a'));
    assert_eq!(client.next(stream, None::<char>), None);
    assert_eq!(client.stream_state(stream), Some(StreamState::Closed));
    assert_eq!(client.next(stream, Some('b')), None);
    assert_eq!(client.subscribed(stream, Ok(())), Ok(()));
    assert_eq!(client.stream_state(stream), Some(StreamState::Closed));
    assert_eq!(client.next(stream, Some('c')), None);
    assert_eq!(client.phase(), Phase::Subscribing);
}

#[test]
fn pending_stream_yields_nothing() {
    let mut client = connected_client();
    let stream = match client.subscribe_votes() {
        Ok(Action::Subscribe { stream, .. }) => stream,
        other => panic!("no subscribe request: {other:?}"),
    };
    assert_eq!(client.next(stream, Some(5u8)), None);
    assert_eq!(client.stream_state(stream), Some(StreamState::Closed));
}

#[test]
fn unknown_stream_yields_nothing() {
    let mut client = connected_client();
    assert_eq!(client.next(3, Some(5u8)), None);
    assert_eq!(client.subscribed(3, Ok(())), Ok(()));
    assert_eq!(client.stream_count(), 0);
    assert_eq!(client.stream_state(3), None);
}

#[test]
fn rejected_subscription_closes_its_stream() {
    let mut client = connected_client();
    let stream = match client.subscribe_votes() {
        Ok(Action::Subscribe { stream, .. }) => stream,
        other => panic!("no subscribe request: {other:?}"),
    };
    assert_eq!(
        client.subscribed(stream, Err("invalid params error: bad query".to_string())),
        Err(ClientError::Subscription(Cause::Rejected(
            "invalid params error: bad query".to_string()
        )))
    );
    assert_eq!(client.stream_state(stream), Some(StreamState::Closed));
    assert_eq!(client.next(stream, Some(1u8)), None);
    assert_eq!(client.phase(), Phase::Subscribing);
}

#[test]
fn subscribe_after_driver_terminated_fails_at_once() {
    let mut client = connected_client();
    client.driver_stopped();
    assert_eq!(client.phase(), Phase::Terminated);
    assert_eq!(
        client.subscribe_votes(),
        Err(ClientError::Subscription(Cause::DriverTerminated))
    );
    assert_eq!(client.stream_count(), 0);
    assert_eq!(client.phase(), Phase::Terminated);
}

#[test]
fn driver_stop_closes_every_stream() {
    let mut client = connected_client();
    let open = open_vote_stream(&mut client);
    let pending = match client.subscribe_votes() {
        Ok(Action::Subscribe { stream, .. }) => stream,
        other => panic!("no subscribe request: {other:?}"),
    };
    client.driver_stopped();
    assert_eq!(client.phase(), Phase::Terminated);
    assert_eq!(client.stream_state(open), Some(StreamState::Closed));
    assert_eq!(client.stream_state(pending), Some(StreamState::Closed));
    assert_eq!(client.next(open, Some("late")), None);
    assert_eq!(client.subscribed(pending, Ok(())), Ok(()));
    assert_eq!(client.stream_state(pending), Some(StreamState::Closed));
    assert_eq!(
        client.unsubscribe_votes(),
        Err(ClientError::Unsubscribe(Cause::DriverTerminated))
    );
}

#[test]
fn driver_stop_is_ignored_while_connecting() {
    let (mut client, _) = WsClient::new(ENDPOINT);
    client.driver_stopped();
    assert_eq!(client.phase(), Phase::Connecting);
    assert_eq!(client.connected(), Some(Action::SpawnDriver));
}

#[test]
fn unsubscribe_without_subscription_completes_and_nothing_arrives() {
    let mut client = connected_client();
    match client.unsubscribe_votes() {
        Ok(Action::Unsubscribe { filter }) => assert_eq!(filter.text(), "tm.event = 'Vote'"),
        other => panic!("no unsubscribe request: {other:?}"),
    }
    assert_eq!(WsClient::unsubscribed(Ok(())), Ok(()));
    assert_eq!(client.phase(), Phase::Unsubscribing);
    assert_eq!(client.stream_count(), 0);
    assert_eq!(client.next(0, Some("V1")), None);
    assert_eq!(client.next(1, Some("V2")), None);
}

#[test]
fn unsubscribe_stops_delivery_and_keeps_the_connection() {
    let mut client = connected_client();
    let stream = open_vote_stream(&mut client);
    assert_eq!(client.next(stream, Some("V1")), Some("V1"));
    assert_eq!(client.unsubscribe_votes().map(|_| ()), Ok(()));
    assert_eq!(client.phase(), Phase::Unsubscribing);
    assert_eq!(client.stream_state(stream), Some(StreamState::Closed));
    assert_eq!(client.next(stream, Some("V2")), None);
    let again = open_vote_stream(&mut client);
    assert_ne!(again, stream);
    assert_eq!(client.phase(), Phase::Subscribing);
    assert_eq!(client.next(again, Some("V3")), Some("V3"));
    assert_eq!(client.next(stream, Some("V4")), None);
}

#[test]
fn unsubscribe_closes_the_streams_of_its_filter_only() {
    let mut client = connected_client();
    let votes = open_vote_stream(&mut client);
    let blocks = match client.subscribe(Filter::parse("tm.event='NewBlock'")) {
        Ok(Action::Subscribe { stream, filter }) => {
            assert_eq!(filter.text(), "tm.event = 'NewBlock'");
            stream
        },
        other => panic!("no subscribe request: {other:?}"),
    };
    assert_eq!(client.subscribed(blocks, Ok(())), Ok(()));
    let more_votes = open_vote_stream(&mut client);
    assert_eq!(client.unsubscribe_votes().map(|_| ()), Ok(()));
    assert_eq!(client.stream_state(votes), Some(StreamState::Closed));
    assert_eq!(client.stream_state(more_votes), Some(StreamState::Closed));
    assert_eq!(client.stream_state(blocks), Some(StreamState::Open));
    assert_eq!(client.next(votes, Some(1u32)), None);
    assert_eq!(client.next(more_votes, Some(2u32)), None);
    assert_eq!(client.next(blocks, Some(3u32)), Some(3));
    assert_eq!(client.next(blocks, Some(4u32)), Some(4));
    assert_eq!(client.stream_count(), 3);
}

#[test]
fn refused_unsubscribe_wraps_its_cause() {
    assert_eq!(
        WsClient::unsubscribed(Err("failed to hear back from WebSocket driver".to_string())),
        Err(ClientError::Unsubscribe(Cause::Rejected(
            "failed to hear back from WebSocket driver".to_string()
        )))
    );
    assert_eq!(WsClient::unsubscribed(Ok(())), Ok(()));
}

#[test]
fn refused_expression_fails_the_request_and_changes_nothing() {
    let mut client = connected_client();
    assert_eq!(
        client.subscribe(Filter::parse("tm.event =")),
        Err(ClientError::Subscription(Cause::InvalidFilter))
    );
    assert_eq!(
        client.unsubscribe(Filter::parse("tm.event =")),
        Err(ClientError::Unsubscribe(Cause::InvalidFilter))
    );
    assert_eq!(client.phase(), Phase::Connected);
    assert_eq!(client.stream_count(), 0);
    let (mut connecting, _) = WsClient::new(ENDPOINT);
    assert_eq!(
        connecting.subscribe(Filter::parse("")),
        Err(ClientError::Subscription(Cause::NotConnected))
    );
    assert_eq!(
        connecting.subscribe(Filter::parse("no such filter")),
        Err(ClientError::Subscription(Cause::InvalidFilter))
    );
}

#[test]
fn phases_follow_the_last_request() {
    let mut client = connected_client();
    assert_eq!(client.phase(), Phase::Connected);
    assert_eq!(client.unsubscribe_votes().map(|_| ()), Ok(()));
    assert_eq!(client.phase(), Phase::Unsubscribing);
    assert_eq!(client.subscribe_votes().map(|_| ()), Ok(()));
    assert_eq!(client.phase(), Phase::Subscribing);
    assert_eq!(client.unsubscribe_votes().map(|_| ()), Ok(()));
    assert_eq!(client.phase(), Phase::Unsubscribing);
    client.driver_stopped();
    assert_eq!(client.phase(), Phase::Terminated);
    client.driver_stopped();
    assert_eq!(client.phase(), Phase::Terminated);
}

#[test]
fn discarded_stream_yields_nothing_more() {
    let mut client = connected_client();
    let kept = open_vote_stream(&mut client);
    let dropped = open_vote_stream(&mut client);
    client.discard(dropped);
    client.discard(7);
    assert_eq!(client.stream_state(dropped), Some(StreamState::Closed));
    assert_eq!(client.stream_state(kept), Some(StreamState::Open));
    assert_eq!(client.next(dropped, Some(1i32)), None);
    assert_eq!(client.next(kept, Some(2i32)), Some(2));
    assert_eq!(client.phase(), Phase::Subscribing);
    assert_eq!(client.stream_count(), 2);
}
