//! What a connection puts on the wire.
//!
//! A request is answered by the bytes of its tokens, one after the other with
//! nothing between them, and then by its footer. Only then is the next line
//! read, so the responses of one connection follow each other whole.

use crate::footer::{footer_text, hundredths};
use crate::session::{after, initial, next, phase_of, Command, Event, Phase, Session, Stage};
use crate::template::prompt_text;
use crate::words::words_of;
use vstd::prelude::*;

verus! {

/// The bytes that an action puts on the wire.
pub open spec fn bytes_of(c: Command) -> Seq<u8> {
    match c {
        Command::Write(bytes) => bytes,
        _ => Seq::empty(),
    }
}

/// The state that `events`, one after the other, lead to from `s`.
pub open spec fn run(template: Seq<char>, s: Session, events: Seq<Event>) -> Session
    decreases events.len(),
{
    if events.len() == 0 {
        s
    } else {
        run(template, next(template, s, events[0]).0, events.drop_first())
    }
}

/// The bytes that the connection is told to write while `events` lead it on
/// from `s`, in the order of the writes.
pub open spec fn wire(template: Seq<char>, s: Session, events: Seq<Event>) -> Seq<u8>
    decreases events.len(),
{
    if events.len() == 0 {
        Seq::empty()
    } else {
        bytes_of(next(template, s, events[0]).1) + wire(
            template,
            next(template, s, events[0]).0,
            events.drop_first(),
        )
    }
}

/// What the driver reports while `n` words are fed without a fault: each
/// word is taken, and the task comes back from its yield.
pub open spec fn feeding(n: nat) -> Seq<Event>
    decreases n,
{
    if n == 0 {
        Seq::empty()
    } else {
        seq![Event::Fed, Event::Resumed] + feeding((n - 1) as nat)
    }
}

/// What the driver reports while `tokens` are produced and written without a
/// fault: each token comes, is written, and the task comes back from its
/// yield.
pub open spec fn streaming(tokens: Seq<Vec<u8>>) -> Seq<Event>
    decreases tokens.len(),
{
    if tokens.len() == 0 {
        Seq::empty()
    } else {
        seq![Event::Token(tokens[0]), Event::Written, Event::Resumed] + streaming(
            tokens.drop_first(),
        )
    }
}

/// The bytes of `tokens`, one token after the other.
pub open spec fn joined(tokens: Seq<Vec<u8>>) -> Seq<u8>
    decreases tokens.len(),
{
    if tokens.len() == 0 {
        Seq::empty()
    } else {
        tokens[0]@ + joined(tokens.drop_first())
    }
}

/// What the driver reports during one request that meets no fault: the line
/// `line` arrives, the timer starts, the prompt's words are fed, the session
/// produces `tokens` and then no more, the timer reads `secs` seconds and
/// `nanos` nanoseconds, and the footer is written.
pub open spec fn request(
    template: Seq<char>,
    line: String,
    tokens: Seq<Vec<u8>>,
    secs: u64,
    nanos: u32,
) -> Seq<Event> {
    seq![Event::Line(line), Event::TimerStarted] + feeding(
        words_of(prompt_text(template, line@)).len(),
    ) + streaming(tokens) + seq![
        Event::NoMoreTokens,
        Event::Elapsed { secs, nanos },
        Event::Written,
    ]
}

/// The response to a request: the tokens' bytes, then the footer.
pub open spec fn response(tokens: Seq<Vec<u8>>, secs: u64, nanos: u32) -> Seq<u8> {
    joined(tokens) + footer_text(hundredths(secs as nat, nanos as nat))
}

/// One event, then the rest.
pub proof fn run_unfolds(template: Seq<char>, s: Session, e: Event, rest: Seq<Event>)
    ensures
        run(template, s, seq![e] + rest) == run(template, next(template, s, e).0, rest),
        wire(template, s, seq![e] + rest) == bytes_of(next(template, s, e).1) + wire(
            template,
            next(template, s, e).0,
            rest,
        ),
{
    let all = seq![e] + rest;
    assert(all[0] == e);
    assert(all.drop_first() =~= rest);
}

/// Running two sequences of events one after the other is running their
/// concatenation, and the wire holds the bytes of the first, then those of
/// the second.
pub proof fn run_splits(template: Seq<char>, s: Session, a: Seq<Event>, b: Seq<Event>)
    ensures
        run(template, s, a + b) == run(template, run(template, s, a), b),
        wire(template, s, a + b) == wire(template, s, a) + wire(
            template,
            run(template, s, a),
            b,
        ),
    decreases a.len(),
{
    if a.len() == 0 {
        assert(a + b =~= b);
        assert(Seq::<u8>::empty() + wire(template, s, b) =~= wire(template, s, b));
    } else {
        let mid = next(template, s, a[0]).0;
        let out = bytes_of(next(template, s, a[0]).1);
        assert((a + b)[0] == a[0]);
        assert((a + b).drop_first() =~= a.drop_first() + b);
        run_splits(template, mid, a.drop_first(), b);
        assert(out + (wire(template, mid, a.drop_first()) + wire(
            template,
            run(template, mid, a.drop_first()),
            b,
        )) =~= (out + wire(template, mid, a.drop_first())) + wire(
            template,
            run(template, mid, a.drop_first()),
            b,
        ));
    }
}

/// The state that a connection has reached is the one that its events lead to
/// from the fresh state.
pub proof fn after_is_run(template: Seq<char>, events: Seq<Event>)
    ensures
        after(template, events) == run(template, initial(), events),
    decreases events.len(),
{
    if events.len() > 0 {
        let front = events.drop_last();
        let last = events.last();
        after_is_run(template, front);
        assert(events =~= front + seq![last]);
        run_splits(template, initial(), front, seq![last]);
        run_unfolds(template, run(template, initial(), front), last, Seq::empty());
        assert(seq![last] + Seq::<Event>::empty() =~= seq![last]);
    }
}

/// Feeding writes nothing, takes the words that are left in their order, and
/// ends where generation begins.
pub proof fn feeding_leads_to_generation(template: Seq<char>, s: Session)
    requires
        s.fed <= s.words.len(),
        s.stage == Stage::Feed || (s.stage == Stage::NextToken && s.fed == s.words.len()),
        s.stage == Stage::Feed ==> s.fed < s.words.len(),
    ensures
        run(template, s, feeding((s.words.len() - s.fed) as nat)) == (Session {
            stage: Stage::NextToken,
            words: s.words,
            fed: s.words.len(),
        }),
        wire(template, s, feeding((s.words.len() - s.fed) as nat)) == Seq::<u8>::empty(),
    decreases s.words.len() - s.fed,
{
    let n = (s.words.len() - s.fed) as nat;
    if n > 0 {
        let rest = feeding((n - 1) as nat);
        let yielded = next(template, s, Event::Fed).0;
        let resumed = next(template, yielded, Event::Resumed).0;
        assert(feeding(n) =~= seq![Event::Fed] + (seq![Event::Resumed] + rest));
        run_unfolds(template, s, Event::Fed, seq![Event::Resumed] + rest);
        run_unfolds(template, yielded, Event::Resumed, rest);
        feeding_leads_to_generation(template, resumed);
        assert(Seq::<u8>::empty() + (Seq::<u8>::empty() + Seq::<u8>::empty()) =~= Seq::<
            u8,
        >::empty());
    }
}

/// While tokens come and are written, the wire gets exactly their bytes, in
/// their order, and the connection is ready for the next token.
pub proof fn streaming_writes_the_tokens(template: Seq<char>, s: Session, tokens: Seq<Vec<u8>>)
    requires
        s.stage == Stage::NextToken,
    ensures
        run(template, s, streaming(tokens)) == s,
        wire(template, s, streaming(tokens)) == joined(tokens),
    decreases tokens.len(),
{
    if tokens.len() > 0 {
        let rest = streaming(tokens.drop_first());
        let token = Event::Token(tokens[0]);
        let writing = next(template, s, token).0;
        let yielded = next(template, writing, Event::Written).0;
        let resumed = next(template, yielded, Event::Resumed).0;
        assert(streaming(tokens) =~= seq![token] + (seq![Event::Written] + (seq![Event::Resumed]
            + rest)));
        run_unfolds(template, s, token, seq![Event::Written] + (seq![Event::Resumed] + rest));
        run_unfolds(template, writing, Event::Written, seq![Event::Resumed] + rest);
        run_unfolds(template, yielded, Event::Resumed, rest);
        assert(resumed == s);
        streaming_writes_the_tokens(template, s, tokens.drop_first());
        assert(tokens[0]@ + (Seq::<u8>::empty() + (Seq::<u8>::empty() + joined(
            tokens.drop_first(),
        ))) =~= joined(tokens));
    }
}

/// A request that meets no fault is answered by its response and nothing
/// else, and the connection then waits for the next line.
pub proof fn request_is_answered(
    template: Seq<char>,
    s: Session,
    line: String,
    tokens: Seq<Vec<u8>>,
    secs: u64,
    nanos: u32,
)
    requires
        s.stage == Stage::ReadLine,
    ensures
        run(template, s, request(template, line, tokens, secs, nanos)).stage == Stage::ReadLine,
        wire(template, s, request(template, line, tokens, secs, nanos)) == response(
            tokens,
            secs,
            nanos,
        ),
{
    let words = words_of(prompt_text(template, line@));
    let head = seq![Event::Line(line), Event::TimerStarted];
    let feed = feeding(words.len());
    let stream = streaming(tokens);
    let tail = seq![Event::NoMoreTokens, Event::Elapsed { secs, nanos }, Event::Written];
    let empty = Seq::<u8>::empty();

    let rendered = next(template, s, Event::Line(line)).0;
    let timed = next(template, rendered, Event::TimerStarted).0;
    assert(head =~= seq![Event::Line(line)] + (seq![Event::TimerStarted] + Seq::<Event>::empty()));
    run_unfolds(template, s, Event::Line(line), seq![Event::TimerStarted] + Seq::<Event>::empty());
    run_unfolds(template, rendered, Event::TimerStarted, Seq::<Event>::empty());
    assert(run(template, s, head) == timed);
    assert(wire(template, s, head) =~= empty);
    assert(timed.words == words && timed.fed == 0);

    feeding_leads_to_generation(template, timed);
    let ready = run(template, timed, feed);
    streaming_writes_the_tokens(template, ready, tokens);

    let done = next(template, ready, Event::NoMoreTokens).0;
    let footed = next(template, done, Event::Elapsed { secs, nanos }).0;
    let footer = footer_text(hundredths(secs as nat, nanos as nat));
    assert(tail =~= seq![Event::NoMoreTokens] + (seq![Event::Elapsed { secs, nanos }] + (seq![
        Event::Written,
    ] + Seq::<Event>::empty())));
    run_unfolds(
        template,
        ready,
        Event::NoMoreTokens,
        seq![Event::Elapsed { secs, nanos }] + (seq![Event::Written] + Seq::<Event>::empty()),
    );
    run_unfolds(
        template,
        done,
        Event::Elapsed { secs, nanos },
        seq![Event::Written] + Seq::<Event>::empty(),
    );
    run_unfolds(template, footed, Event::Written, Seq::<Event>::empty());
    assert(run(template, ready, tail).stage == Stage::ReadLine);
    assert(wire(template, ready, tail) =~= footer);

    run_splits(template, s, head, feed);
    run_splits(template, s, head + feed, stream);
    run_splits(template, s, head + feed + stream, tail);
    assert(wire(template, s, head + feed) =~= empty);
    assert(wire(template, s, head + feed + stream) =~= joined(tokens));
}

/// The responses of one connection follow each other whole. When two
/// requests come one after the other, the wire holds the complete response
/// to the first, tokens and footer, before the first byte of the response to
/// the second.
pub proof fn responses_follow_in_order(
    template: Seq<char>,
    s: Session,
    first: (String, Seq<Vec<u8>>, u64, u32),
    second: (String, Seq<Vec<u8>>, u64, u32),
)
    requires
        s.stage == Stage::ReadLine,
    ensures
        wire(template, s, request(template, first.0, first.1, first.2, first.3)) == response(
            first.1,
            first.2,
            first.3,
        ),
        wire(
            template,
            s,
            request(template, first.0, first.1, first.2, first.3) + request(
                template,
                second.0,
                second.1,
                second.2,
                second.3,
            ),
        ) == response(first.1, first.2, first.3) + response(second.1, second.2, second.3),
{
    let one = request(template, first.0, first.1, first.2, first.3);
    let two = request(template, second.0, second.1, second.2, second.3);
    request_is_answered(template, s, first.0, first.1, first.2, first.3);
    request_is_answered(template, run(template, s, one), second.0, second.1, second.2, second.3);
    run_splits(template, s, one, two);
}

/// Once a connection is closed, nothing more reaches the wire and nothing
/// changes, whatever is reported to it: no token is asked for or written
/// after the fault that closed it.
pub proof fn closed_connection_is_silent(template: Seq<char>, s: Session, events: Seq<Event>)
    requires
        phase_of(s.stage) == Phase::Closed,
    ensures
        run(template, s, events) == s,
        wire(template, s, events) == Seq::<u8>::empty(),
    decreases events.len(),
{
    if events.len() > 0 {
        closed_connection_is_silent(template, s, events.drop_first());
        assert(Seq::<u8>::empty() + Seq::<u8>::empty() =~= Seq::<u8>::empty());
    }
}

/// A failed write ends the response where it stands: whatever the state and
/// whatever is reported afterwards, the wire gets no further byte.
pub proof fn failed_write_ends_the_response(template: Seq<char>, s: Session, events: Seq<Event>)
    ensures
        wire(template, s, seq![Event::WriteFailed] + events) == Seq::<u8>::empty(),
        phase_of(run(template, s, seq![Event::WriteFailed] + events).stage) == Phase::Closed,
{
    run_unfolds(template, s, Event::WriteFailed, events);
    closed_connection_is_silent(template, next(template, s, Event::WriteFailed).0, events);
    assert(Seq::<u8>::empty() + Seq::<u8>::empty() =~= Seq::<u8>::empty());
}

} // verus!
