use prompt_relay::session::{Action, CloseReason, Event, Handler, Phase, Stage};
use prompt_relay::template::PromptTemplate;

fn fresh(template: &str) -> Handler<'static> {
    Handler::new(Box::leak(Box::new(PromptTemplate::new(template.to_string()))))
}

fn feed_all(handler: &mut Handler, expected: &[&str]) -> Action {
    let mut action = handler.step(Event::TimerStarted);
    for word in expected.iter() {
        assert_eq!(action, Action::Feed(word.to_string()));
        assert_eq!(handler.phase(), Phase::Feeding);
        assert_eq!(handler.step(Event::Fed), Action::Yield);
        assert_eq!(handler.phase(), Phase::Feeding);
        action = handler.step(Event::Resumed);
    }
    action
}

fn generate(handler: &mut Handler, tokens: &[&[u8]]) {
    for token in tokens.iter() {
        assert_eq!(handler.step(Event::Token(token.to_vec())), Action::Write(token.to_vec()));
        assert_eq!(handler.phase(), Phase::Generating);
        assert_eq!(handler.step(Event::Written), Action::Yield);
        assert_eq!(handler.step(Event::Resumed), Action::NextToken);
    }
}

#[test]
fn fresh_connection_waits_for_a_line() {
    let handler = fresh("{{prompt}}");
    assert_eq!(handler.first_action(), Action::ReadLine);
    assert_eq!(handler.phase(), Phase::AwaitingLine);
    assert_eq!(handler.stage(), Stage::ReadLine);
    assert_eq!(handler.close_reason(), None);
    assert!(!handler.ended_cleanly());
}

#[test]
fn idle_connection_stays_parked() {
    let handler = fresh("Q: {{prompt}}");
    let mut polls: u32 = 0;
    while polls < 100 {
        assert_eq!(handler.phase(), Phase::AwaitingLine);
        assert_eq!(handler.first_action(), Action::ReadLine);
        polls += 1;
    }
}

#[test]
fn one_request_runs_through_every_phase() {
    let mut handler = fresh("Q: {{prompt}} A:");
    assert_eq!(handler.step(Event::Line("how are you".to_string())), Action::StartTimer);
    assert_eq!(handler.phase(), Phase::Rendering);
    let action = feed_all(&mut handler, &["Q:", "how", "are", "you", "A:"]);
    assert_eq!(action, Action::NextToken);
    assert_eq!(handler.phase(), Phase::Generating);
    generate(&mut handler, &[b"fine", b" thanks", &[0xF0, 0x9F]]);
    assert_eq!(handler.step(Event::NoMoreTokens), Action::ReadTimer);
    assert_eq!(handler.phase(), Phase::WritingFooter);
    assert_eq!(
        handler.step(Event::Elapsed { secs: 2, nanos: 500_000_000 }),
        Action::Write(b"\r\n(took 2.50s)\r\n".to_vec())
    );
    assert_eq!(handler.phase(), Phase::WritingFooter);
    assert_eq!(handler.step(Event::Written), Action::ReadLine);
    assert_eq!(handler.phase(), Phase::AwaitingLine);
}

#[test]
fn second_request_starts_after_first_footer() {
    let mut handler = fresh("{{prompt}}");
    let mut trace: Vec<Action> = vec![handler.first_action()];
    let events = vec![
        Event::Line("one".to_string()),
        Event::TimerStarted,
        Event::Fed,
        Event::Resumed,
        Event::Token(b"1".to_vec()),
        Event::Written,
        Event::Resumed,
        Event::NoMoreTokens,
        Event::Elapsed { secs: 0, nanos: 10_000_000 },
        Event::Written,
        Event::Line("two".to_string()),
        Event::TimerStarted,
        Event::Fed,
        Event::Resumed,
        Event::Token(b"2".to_vec()),
        Event::Written,
        Event::Resumed,
        Event::NoMoreTokens,
        Event::Elapsed { secs: 0, nanos: 20_000_000 },
        Event::Written,
    ];
    for event in events {
        trace.push(handler.step(event));
    }
    let expected = vec![
        Action::ReadLine,
        Action::StartTimer,
        Action::Feed("one".to_string()),
        Action::Yield,
        Action::NextToken,
        Action::Write(b"1".to_vec()),
        Action::Yield,
        Action::NextToken,
        Action::ReadTimer,
        Action::Write(b"\r\n(took 0.01s)\r\n".to_vec()),
        Action::ReadLine,
        Action::StartTimer,
        Action::Feed("two".to_string()),
        Action::Yield,
        Action::NextToken,
        Action::Write(b"2".to_vec()),
        Action::Yield,
        Action::NextToken,
        Action::ReadTimer,
        Action::Write(b"\r\n(took 0.02s)\r\n".to_vec()),
        Action::ReadLine,
    ];
    assert_eq!(trace, expected);
}

#[test]
fn pipelined_line_is_not_taken_mid_response() {
    let mut handler = fresh("{{prompt}}");
    handler.step(Event::Line("one".to_string()));
    assert_eq!(feed_all(&mut handler, &["one"]), Action::NextToken);
    assert_eq!(handler.step(Event::Line("two".to_string())), Action::Close);
    assert_eq!(handler.close_reason(), Some(CloseReason::OutOfTurn));
}

#[test]
fn tokens_go_out_before_the_footer_exists() {
    let mut handler = fresh("{{prompt}}");
    handler.step(Event::Line("go".to_string()));
    assert_eq!(feed_all(&mut handler, &["go"]), Action::NextToken);
    assert_eq!(handler.step(Event::Token(b"partial".to_vec())), Action::Write(b"partial".to_vec()));
    assert_eq!(handler.phase(), Phase::Generating);
    assert_ne!(handler.phase(), Phase::WritingFooter);
}

#[test]
fn empty_line_feeds_nothing() {
    let mut handler = fresh("{{prompt}}");
    assert_eq!(handler.step(Event::Line(String::new())), Action::StartTimer);
    assert_eq!(handler.step(Event::TimerStarted), Action::NextToken);
    assert_eq!(handler.phase(), Phase::Generating);
}

#[test]
fn empty_response_still_gets_a_footer() {
    let mut handler = fresh("{{prompt}}");
    handler.step(Event::Line("x".to_string()));
    assert_eq!(feed_all(&mut handler, &["x"]), Action::NextToken);
    assert_eq!(handler.step(Event::NoMoreTokens), Action::ReadTimer);
    assert_eq!(
        handler.step(Event::Elapsed { secs: 0, nanos: 0 }),
        Action::Write(b"\r\n(took 0.00s)\r\n".to_vec())
    );
}

#[test]
fn end_of_stream_closes_cleanly() {
    let mut handler = fresh("{{prompt}}");
    assert_eq!(handler.step(Event::EndOfStream), Action::Close);
    assert_eq!(handler.phase(), Phase::Closed);
    assert_eq!(handler.close_reason(), Some(CloseReason::EndOfStream));
    assert!(handler.ended_cleanly());
}

#[test]
fn read_failure_closes_cleanly() {
    let mut handler = fresh("{{prompt}}");
    assert_eq!(handler.step(Event::ReadFailed), Action::Close);
    assert_eq!(handler.close_reason(), Some(CloseReason::ReadFailed));
    assert!(handler.ended_cleanly());
}

#[test]
fn feed_failure_closes_the_connection() {
    let mut handler = fresh("{{prompt}}");
    handler.step(Event::Line("a b c".to_string()));
    assert_eq!(handler.step(Event::TimerStarted), Action::Feed("a".to_string()));
    assert_eq!(handler.step(Event::Fed), Action::Yield);
    assert_eq!(handler.step(Event::Resumed), Action::Feed("b".to_string()));
    assert_eq!(handler.step(Event::FeedFailed), Action::Close);
    assert_eq!(handler.phase(), Phase::Closed);
    assert_eq!(handler.close_reason(), Some(CloseReason::FeedFailed));
    assert!(!handler.ended_cleanly());
    assert_eq!(handler.step(Event::Resumed), Action::Close);
}

#[test]
fn disconnect_mid_generation_stops_the_request() {
    let mut handler = fresh("{{prompt}}");
    handler.step(Event::Line("tell me".to_string()));
    assert_eq!(feed_all(&mut handler, &["tell", "me"]), Action::NextToken);
    generate(&mut handler, &[b"once"]);
    assert_eq!(handler.step(Event::Token(b" upon".to_vec())), Action::Write(b" upon".to_vec()));
    assert_eq!(handler.step(Event::WriteFailed), Action::Close);
    assert_eq!(handler.phase(), Phase::Closed);
    assert_eq!(handler.close_reason(), Some(CloseReason::WriteFailed));
    assert!(!handler.ended_cleanly());
    assert_eq!(handler.step(Event::Resumed), Action::Close);
    assert_eq!(handler.step(Event::Token(b"x".to_vec())), Action::Close);
    assert_eq!(handler.step(Event::Written), Action::Close);
    assert_eq!(handler.close_reason(), Some(CloseReason::WriteFailed));
}

#[test]
fn footer_write_failure_closes() {
    let mut handler = fresh("{{prompt}}");
    handler.step(Event::Line(String::new()));
    handler.step(Event::TimerStarted);
    handler.step(Event::NoMoreTokens);
    handler.step(Event::Elapsed { secs: 1, nanos: 0 });
    assert_eq!(handler.step(Event::WriteFailed), Action::Close);
    assert_eq!(handler.close_reason(), Some(CloseReason::WriteFailed));
}

#[test]
fn event_out_of_turn_closes() {
    let mut handler = fresh("{{prompt}}");
    assert_eq!(handler.step(Event::Written), Action::Close);
    assert_eq!(handler.stage(), Stage::Closed(CloseReason::OutOfTurn));
    assert!(!handler.ended_cleanly());
    let mut other = fresh("{{prompt}}");
    other.step(Event::Line("x".to_string()));
    assert_eq!(other.step(Event::EndOfStream), Action::Close);
    assert_eq!(other.close_reason(), Some(CloseReason::OutOfTurn));
}

#[test]
fn prompt_words_follow_the_template() {
    let mut handler = fresh("Q: {{prompt}}\\nA:");
    handler.step(Event::Line("hello".to_string()));
    assert_eq!(feed_all(&mut handler, &["Q:", "hello\\nA:"]), Action::NextToken);
}

#[test]
fn rendered_prompt_starts_a_request() {
    let mut handler = fresh("unused");
    assert_eq!(handler.start_request("Q: hello\\nA:"), Action::StartTimer);
    assert_eq!(handler.phase(), Phase::Rendering);
    assert_eq!(feed_all(&mut handler, &["Q:", "hello\\nA:"]), Action::NextToken);
    assert_eq!(handler.start_request("again"), Action::Close);
    assert_eq!(handler.close_reason(), Some(CloseReason::OutOfTurn));
    assert_eq!(handler.start_request("again"), Action::Close);
    assert_eq!(handler.close_reason(), Some(CloseReason::OutOfTurn));
}

#[test]
fn response_is_tokens_then_footer() {
    let mut handler = fresh("{{prompt}}");
    let tokens: Vec<Vec<u8>> = vec![b"Hel".to_vec(), b"lo".to_vec(), Vec::new(), b", world".to_vec()];
    let mut events = vec![
        Event::Line("greet me".to_string()),
        Event::TimerStarted,
        Event::Fed,
        Event::Resumed,
        Event::Fed,
        Event::Resumed,
    ];
    for token in tokens.iter() {
        events.push(Event::Token(token.clone()));
        events.push(Event::Written);
        events.push(Event::Resumed);
    }
    events.push(Event::NoMoreTokens);
    events.push(Event::Elapsed { secs: 3, nanos: 141_592_653 });
    events.push(Event::Written);
    let mut wire: Vec<u8> = Vec::new();
    for event in events {
        if let Action::Write(bytes) = handler.step(event) {
            wire.extend_from_slice(&bytes);
        }
    }
    assert_eq!(wire, b"Hello, world\r\n(took 3.14s)\r\n".to_vec());
    assert_eq!(handler.phase(), Phase::AwaitingLine);
}
