use order_book::error::{DecodeError, FeedError, Side};
use order_book::session::{connect_data, frame_action, step, Action, Event, Phase, Transition};
use order_book::subscribe::SubscriptionRequest;

fn text(frame: &str) -> Event {
    Event::Text { text: String::from(frame) }
}

fn all_events() -> Vec<Event> {
    vec![
        Event::Open { token: String::from("abc123") },
        Event::Connected,
        Event::ConnectFailed,
        Event::Sent,
        Event::SendFailed,
        text(r#"{"type":"message","data":{"asks":[],"bids":[]}}"#),
        text("not json"),
        Event::Ignored,
        Event::EndOfStream,
        Event::ChannelFailed,
        Event::WriteFailed,
    ]
}

fn stop(outcome: Result<(), FeedError>) -> Action {
    Action::Stop { outcome }
}

#[test]
fn session_connects_to_the_address_with_the_token() {
    let opened = connect_data(String::from("abc123"));
    assert_eq!(opened.phase, Phase::Connecting);
    assert_eq!(
        opened.action,
        Action::Connect { url: String::from("wss://ws-api-spot.kucoin.com/?token=abc123") }
    );
    let request = SubscriptionRequest::standard();
    let stepped = step(Phase::Disconnected, Event::Open { token: String::from("abc123") }, &request);
    assert_eq!(stepped, opened);
}

#[test]
fn subscription_is_sent_once_connected() {
    let request = SubscriptionRequest::standard();
    let connected = step(Phase::Connecting, Event::Connected, &request);
    assert_eq!(connected.phase, Phase::Connecting);
    assert_eq!(connected.action, Action::Send { text: request.to_text() });
    let sent = step(connected.phase, Event::Sent, &request);
    assert_eq!(sent, Transition { phase: Phase::Subscribed, action: Action::Receive });
}

#[test]
fn failure_to_connect_or_send_is_a_transport_error() {
    let request = SubscriptionRequest::standard();
    for event in [Event::ConnectFailed, Event::SendFailed] {
        assert_eq!(
            step(Phase::Connecting, event, &request),
            Transition { phase: Phase::Failed, action: stop(Err(FeedError::Transport)) }
        );
    }
}

#[test]
fn update_frame_is_shown() {
    let request = SubscriptionRequest::standard();
    let frame = r#"{"type":"message","data":{"asks":[["1801.50",3]],"bids":[["1800.00",7]]}}"#;
    for phase in [Phase::Subscribed, Phase::Streaming] {
        let stepped = step(phase, text(frame), &request);
        assert_eq!(stepped.phase, Phase::Streaming);
        assert_eq!(
            stepped.action,
            Action::Show { table: String::from("Type\tPrice\t\tSize\nA\t1801.50\t\t3\nB\t1800.00\t\t7\n") }
        );
    }
}

#[test]
fn acknowledgement_produces_no_output_and_the_loop_goes_on() {
    let request = SubscriptionRequest::standard();
    for phase in [Phase::Subscribed, Phase::Streaming] {
        assert_eq!(
            step(phase, text(r#"{"type":"ack"}"#), &request),
            Transition { phase: Phase::Streaming, action: Action::Receive }
        );
    }
}

#[test]
fn malformed_frame_is_reported_and_the_loop_goes_on() {
    let request = SubscriptionRequest::standard();
    let frame = r#"{"type":"message","data":{"asks":[["abc",5]],"bids":[]}}"#;
    let stepped = step(Phase::Streaming, text(frame), &request);
    assert_eq!(stepped.phase, Phase::Streaming);
    assert_eq!(
        stepped.action,
        Action::Report { error: DecodeError::BadLevel { side: Side::Ask, index: 0 } }
    );
    let broken = step(stepped.phase, text("{"), &request);
    assert_eq!(
        broken,
        Transition { phase: Phase::Streaming, action: Action::Report { error: DecodeError::Syntax } }
    );
    let after = step(broken.phase, text(r#"{"type":"message","data":{"asks":[],"bids":[]}}"#), &request);
    assert_eq!(after.action, Action::Show { table: String::from("Type\tPrice\t\tSize\n") });
}

#[test]
fn binary_and_control_frames_are_passed_over() {
    let request = SubscriptionRequest::standard();
    for phase in [Phase::Subscribed, Phase::Streaming] {
        assert_eq!(
            step(phase, Event::Ignored, &request),
            Transition { phase: Phase::Streaming, action: Action::Receive }
        );
    }
}

#[test]
fn end_of_stream_closes_the_session() {
    let request = SubscriptionRequest::standard();
    for phase in [Phase::Subscribed, Phase::Streaming] {
        assert_eq!(
            step(phase, Event::EndOfStream, &request),
            Transition { phase: Phase::Closed, action: stop(Ok(())) }
        );
    }
}

#[test]
fn channel_and_output_failures_end_the_session() {
    let request = SubscriptionRequest::standard();
    for phase in [Phase::Subscribed, Phase::Streaming] {
        assert_eq!(
            step(phase, Event::ChannelFailed, &request),
            Transition { phase: Phase::Failed, action: stop(Err(FeedError::Transport)) }
        );
        assert_eq!(
            step(phase, Event::WriteFailed, &request),
            Transition { phase: Phase::Failed, action: stop(Err(FeedError::Output)) }
        );
    }
}

#[test]
fn closed_and_failed_sessions_stay_so() {
    let request = SubscriptionRequest::standard();
    for event in all_events() {
        assert_eq!(
            step(Phase::Closed, event.clone(), &request),
            Transition { phase: Phase::Closed, action: stop(Ok(())) }
        );
        assert_eq!(
            step(Phase::Failed, event, &request),
            Transition { phase: Phase::Failed, action: stop(Err(FeedError::Protocol)) }
        );
    }
}

#[test]
fn event_out_of_turn_fails_the_session() {
    let request = SubscriptionRequest::standard();
    let misuse = Transition { phase: Phase::Failed, action: stop(Err(FeedError::Protocol)) };
    for event in all_events() {
        if !matches!(event, Event::Open { .. }) {
            assert_eq!(step(Phase::Disconnected, event, &request), misuse);
        }
    }
    for event in [Event::Open { token: String::new() }, text("{}"), Event::Ignored, Event::EndOfStream, Event::ChannelFailed, Event::WriteFailed] {
        assert_eq!(step(Phase::Connecting, event, &request), misuse);
    }
    for event in [Event::Open { token: String::new() }, Event::Connected, Event::ConnectFailed, Event::Sent, Event::SendFailed] {
        assert_eq!(step(Phase::Streaming, event.clone(), &request), misuse);
        assert_eq!(step(Phase::Subscribed, event, &request), misuse);
    }
}

#[test]
fn whole_session_runs_from_token_to_close() {
    let request = SubscriptionRequest::standard();
    let mut phase = connect_data(String::from("abc123")).phase;
    let mut shown: Vec<String> = Vec::new();
    let mut reported: Vec<DecodeError> = Vec::new();
    let events = vec![
        Event::Connected,
        Event::Sent,
        text(r#"{"id":"1545910660740","type":"ack"}"#),
        Event::Ignored,
        text(r#"{"type":"message","data":{"asks":[["2",1],["3",1]],"bids":[["1",1]]}}"#),
        text(r#"{"type":"message","data":{"asks":[["2",1]],"bids":[[1,1]]}}"#),
        text(r#"{"type":"message","data":{"asks":[],"bids":[["1.5",9]]}}"#),
        Event::EndOfStream,
    ];
    let mut last = None;
    for event in events {
        let stepped = step(phase, event, &request);
        phase = stepped.phase;
        match stepped.action {
            Action::Show { table } => shown.push(table),
            Action::Report { error } => reported.push(error),
            Action::Stop { outcome } => last = Some(outcome),
            _ => {}
        }
    }
    assert_eq!(phase, Phase::Closed);
    assert_eq!(last, Some(Ok(())));
    assert_eq!(
        shown,
        vec![
            String::from("Type\tPrice\t\tSize\nA\t3.00\t\t1\nA\t2.00\t\t1\nB\t1.00\t\t1\n"),
            String::from("Type\tPrice\t\tSize\nB\t1.50\t\t9\n"),
        ]
    );
    assert_eq!(reported, vec![DecodeError::BadLevel { side: Side::Bid, index: 0 }]);
}

#[test]
fn decoded_frame_says_what_to_do() {
    assert_eq!(frame_action(Ok(None)), Action::Receive);
    assert_eq!(
        frame_action(Err(DecodeError::MissingSide { side: Side::Bid })),
        Action::Report { error: DecodeError::MissingSide { side: Side::Bid } }
    );
}
