//! The per-connection state machine.
//!
//! A handler never performs I/O, inference or timing itself. It tells its
//! driver what to do next (an [`Action`]) and is told what came of it (an
//! [`Event`]). The driver owns the connection, the inference session and the
//! clock; the handler owns every decision: what is fed, what is written, when
//! the task yields, and when the connection is closed.

use crate::footer::{footer, footer_has_shape, footer_text, hundredths, is_footer};
use crate::template::{prompt_text, PromptTemplate};
use crate::words::{split_words, texts, words_of};
use vstd::prelude::*;

verus! {

/// The phases of a connection.
#[derive(Clone, Copy, Debug, PartialEq, Eq, Structural)]
pub enum Phase {
    AwaitingLine,
    Rendering,
    Feeding,
    Generating,
    WritingFooter,
    Closed,
}

/// Why a connection was closed.
#[derive(Clone, Copy, Debug, PartialEq, Eq, Structural)]
pub enum CloseReason {
    /// The client closed its side.
    EndOfStream,
    /// Reading a line failed.
    ReadFailed,
    /// The session refused a word of the prompt.
    FeedFailed,
    /// Writing to the client failed.
    WriteFailed,
    /// The driver reported something that it had not been asked for.
    OutOfTurn,
}

/// What the driver has been asked to do and has not reported on yet.
#[derive(Clone, Copy, Debug, PartialEq, Eq, Structural)]
pub enum Stage {
    ReadLine,
    StartTimer,
    Feed,
    YieldAfterFeed,
    NextToken,
    WriteToken,
    YieldAfterToken,
    ReadTimer,
    WriteFooter,
    Closed(CloseReason),
}

/// What came of the last action.
#[derive(Clone, Debug, PartialEq, Eq)]
pub enum Event {
    /// A complete line arrived, given without its line ending. The text is
    /// taken as it is: white space inside it, a line feed too, separates
    /// words like any other.
    Line(String),
    /// The inbound stream ended.
    EndOfStream,
    /// Reading failed.
    ReadFailed,
    /// The timer runs.
    TimerStarted,
    /// The session took the word.
    Fed,
    /// The session refused the word.
    FeedFailed,
    /// The task runs again after a yield.
    Resumed,
    /// The session produced a token with these bytes.
    Token(Vec<u8>),
    /// The session cannot produce another token: the response is complete.
    NoMoreTokens,
    /// The bytes were written in full.
    Written,
    /// Writing failed.
    WriteFailed,
    /// The time that has passed since the timer was started.
    Elapsed { secs: u64, nanos: u32 },
}

/// What the driver is to do next.
#[derive(Clone, Debug, PartialEq, Eq)]
pub enum Action {
    /// Wait for the next line of the connection.
    ReadLine,
    /// Start the request's timer.
    StartTimer,
    /// Feed this word to the session.
    Feed(String),
    /// Yield to the scheduler.
    Yield,
    /// Ask the session for the next token.
    NextToken,
    /// Write these bytes to the connection, all of them.
    Write(Vec<u8>),
    /// Read the request's timer.
    ReadTimer,
    /// Drop the connection and end the task.
    Close,
}

/// An action as a mathematical value.
pub enum Command {
    ReadLine,
    StartTimer,
    Feed(Seq<char>),
    Yield,
    NextToken,
    Write(Seq<u8>),
    ReadTimer,
    Close,
}

impl View for Action {
    type V = Command;

    open spec fn view(&self) -> Command {
        match *self {
            Action::ReadLine => Command::ReadLine,
            Action::StartTimer => Command::StartTimer,
            Action::Feed(word) => Command::Feed(word@),
            Action::Yield => Command::Yield,
            Action::NextToken => Command::NextToken,
            Action::Write(bytes) => Command::Write(bytes@),
            Action::ReadTimer => Command::ReadTimer,
            Action::Close => Command::Close,
        }
    }
}

/// A connection's state as a mathematical value: the stage, the words of the
/// current prompt, and how many of them the session has taken.
pub struct Session {
    pub stage: Stage,
    pub words: Seq<Seq<char>>,
    pub fed: nat,
}

/// The phase that a stage belongs to.
pub open spec fn phase_of(stage: Stage) -> Phase {
    match stage {
        Stage::ReadLine => Phase::AwaitingLine,
        Stage::StartTimer => Phase::Rendering,
        Stage::Feed => Phase::Feeding,
        Stage::YieldAfterFeed => Phase::Feeding,
        Stage::NextToken => Phase::Generating,
        Stage::WriteToken => Phase::Generating,
        Stage::YieldAfterToken => Phase::Generating,
        Stage::ReadTimer => Phase::WritingFooter,
        Stage::WriteFooter => Phase::WritingFooter,
        Stage::Closed(_) => Phase::Closed,
    }
}

/// A fresh connection: it waits for its first line.
pub open spec fn initial() -> Session {
    Session { stage: Stage::ReadLine, words: Seq::empty(), fed: 0 }
}

/// While a word is being fed, or the task yields after one, that word exists.
pub open spec fn valid(s: Session) -> bool {
    &&& s.fed <= s.words.len()
    &&& (s.stage == Stage::Feed || s.stage == Stage::YieldAfterFeed) ==> s.fed < s.words.len()
}

/// The session at another stage.
pub open spec fn at_stage(s: Session, stage: Stage) -> Session {
    Session { stage, words: s.words, fed: s.fed }
}

/// Closing: the connection is dropped for `reason`.
pub open spec fn close(s: Session, reason: CloseReason) -> (Session, Command) {
    (at_stage(s, Stage::Closed(reason)), Command::Close)
}

/// After `fed` words: feed the next one, or start generating when none is
/// left.
pub open spec fn feed_or_generate(words: Seq<Seq<char>>, fed: nat) -> (Session, Command) {
    if fed < words.len() {
        (Session { stage: Stage::Feed, words, fed }, Command::Feed(words[fed as int]))
    } else {
        (Session { stage: Stage::NextToken, words, fed }, Command::NextToken)
    }
}

/// A rendered prompt arrives: a connection that waits for a line takes it,
/// split into words, and has its timer started before anything is fed. At any
/// other stage a prompt is out of turn.
pub open spec fn take_prompt(s: Session, prompt: Seq<char>) -> (Session, Command) {
    match s.stage {
        Stage::ReadLine => (
            Session { stage: Stage::StartTimer, words: words_of(prompt), fed: 0 },
            Command::StartTimer,
        ),
        Stage::Closed(_) => (s, Command::Close),
        _ => close(s, CloseReason::OutOfTurn),
    }
}

/// The transition relation: the state and the action that follow from state
/// `s` on event `e`, for a connection served with the template `template`.
///
/// An event that the stage has not asked for closes the connection, and a
/// closed connection stays closed.
pub open spec fn next(template: Seq<char>, s: Session, e: Event) -> (Session, Command) {
    match s.stage {
        Stage::ReadLine => match e {
            Event::Line(line) => take_prompt(s, prompt_text(template, line@)),
            Event::EndOfStream => close(s, CloseReason::EndOfStream),
            Event::ReadFailed => close(s, CloseReason::ReadFailed),
            _ => close(s, CloseReason::OutOfTurn),
        },
        Stage::StartTimer => match e {
            Event::TimerStarted => feed_or_generate(s.words, 0),
            _ => close(s, CloseReason::OutOfTurn),
        },
        Stage::Feed => match e {
            Event::Fed => (at_stage(s, Stage::YieldAfterFeed), Command::Yield),
            Event::FeedFailed => close(s, CloseReason::FeedFailed),
            _ => close(s, CloseReason::OutOfTurn),
        },
        Stage::YieldAfterFeed => match e {
            Event::Resumed => feed_or_generate(s.words, s.fed + 1),
            _ => close(s, CloseReason::OutOfTurn),
        },
        Stage::NextToken => match e {
            Event::Token(bytes) => (at_stage(s, Stage::WriteToken), Command::Write(bytes@)),
            Event::NoMoreTokens => (at_stage(s, Stage::ReadTimer), Command::ReadTimer),
            _ => close(s, CloseReason::OutOfTurn),
        },
        Stage::WriteToken => match e {
            Event::Written => (at_stage(s, Stage::YieldAfterToken), Command::Yield),
            Event::WriteFailed => close(s, CloseReason::WriteFailed),
            _ => close(s, CloseReason::OutOfTurn),
        },
        Stage::YieldAfterToken => match e {
            Event::Resumed => (at_stage(s, Stage::NextToken), Command::NextToken),
            _ => close(s, CloseReason::OutOfTurn),
        },
        Stage::ReadTimer => match e {
            Event::Elapsed { secs, nanos } => (
                at_stage(s, Stage::WriteFooter),
                Command::Write(footer_text(hundredths(secs as nat, nanos as nat))),
            ),
            _ => close(s, CloseReason::OutOfTurn),
        },
        Stage::WriteFooter => match e {
            Event::Written => (at_stage(s, Stage::ReadLine), Command::ReadLine),
            Event::WriteFailed => close(s, CloseReason::WriteFailed),
            _ => close(s, CloseReason::OutOfTurn),
        },
        Stage::Closed(_) => (s, Command::Close),
    }
}

/// The handler of one connection. The template is shared by all connections
/// and only ever read.
pub struct Handler<'a> {
    template: &'a PromptTemplate,
    stage: Stage,
    words: Vec<String>,
    fed: usize,
}

impl<'a> Handler<'a> {
    /// The text of the template that this connection is served with.
    pub closed spec fn template(&self) -> Seq<char> {
        self.template@
    }

    /// The connection's state.
    pub closed spec fn session(&self) -> Session {
        Session { stage: self.stage, words: texts(self.words@), fed: self.fed as nat }
    }

    /// A handler's state is valid at all times.
    #[verifier::type_invariant]
    closed spec fn well_formed(&self) -> bool {
        valid(self.session())
    }

    /// A handler for a fresh connection. Its driver begins with
    /// [`Handler::first_action`].
    pub fn new(template: &'a PromptTemplate) -> (handler: Handler<'a>)
        ensures
            handler.template() == template@,
            handler.session() == initial(),
            valid(handler.session()),
    {
        let handler = Handler { template, stage: Stage::ReadLine, words: Vec::new(), fed: 0 };
        assert(texts(handler.words@) =~= Seq::<Seq<char>>::empty());
        handler
    }

    /// What a fresh connection does first: it waits for a line.
    pub fn first_action(&self) -> (action: Action)
        ensures
            action@ == Command::ReadLine,
    {
        Action::ReadLine
    }

    /// The stage that the connection is at.
    pub fn stage(&self) -> (stage: Stage)
        ensures
            stage == self.session().stage,
    {
        self.stage
    }

    /// The phase that the connection is in.
    pub fn phase(&self) -> (phase: Phase)
        ensures
            phase == phase_of(self.session().stage),
    {
        match self.stage {
            Stage::ReadLine => Phase::AwaitingLine,
            Stage::StartTimer => Phase::Rendering,
            Stage::Feed => Phase::Feeding,
            Stage::YieldAfterFeed => Phase::Feeding,
            Stage::NextToken => Phase::Generating,
            Stage::WriteToken => Phase::Generating,
            Stage::YieldAfterToken => Phase::Generating,
            Stage::ReadTimer => Phase::WritingFooter,
            Stage::WriteFooter => Phase::WritingFooter,
            Stage::Closed(_) => Phase::Closed,
        }
    }

    /// Why the connection was closed, if it is.
    pub fn close_reason(&self) -> (reason: Option<CloseReason>)
        ensures
            reason == (match self.session().stage {
                Stage::Closed(r) => Some(r),
                _ => None,
            }),
    {
        match self.stage {
            Stage::Closed(r) => Some(r),
            _ => None,
        }
    }

    /// Whether the connection ended without a fault: it is closed because the
    /// client's stream ended or could no longer be read. A refused word, a
    /// failed write and an event out of turn are faults.
    pub fn ended_cleanly(&self) -> (clean: bool)
        ensures
            clean == (self.session().stage == Stage::Closed(CloseReason::EndOfStream)
                || self.session().stage == Stage::Closed(CloseReason::ReadFailed)),
    {
        match self.stage {
            Stage::Closed(CloseReason::EndOfStream) => true,
            Stage::Closed(CloseReason::ReadFailed) => true,
            _ => false,
        }
    }

    fn shut(&mut self, reason: CloseReason) -> (action: Action)
        ensures
            (final(self).session(), action@) == close(old(self).session(), reason),
            final(self).template() == old(self).template(),
    {
        proof {
            use_type_invariant(&*self);
        }
        self.stage = Stage::Closed(reason);
        Action::Close
    }

    fn advance(&mut self) -> (action: Action)
        ensures
            (final(self).session(), action@) == feed_or_generate(
                old(self).session().words,
                old(self).session().fed,
            ),
            final(self).template() == old(self).template(),
    {
        proof {
            use_type_invariant(&*self);
        }
        if self.fed < self.words.len() {
            self.stage = Stage::Feed;
            Action::Feed(self.words[self.fed].clone())
        } else {
            self.stage = Stage::NextToken;
            Action::NextToken
        }
    }

    /// Takes a prompt that is already rendered, in place of a line: the
    /// prompt is split into words and the request begins.
    pub fn start_request(&mut self, prompt: &str) -> (action: Action)
        ensures
            (final(self).session(), action@) == take_prompt(old(self).session(), prompt@),
            final(self).template() == old(self).template(),
            valid(final(self).session()),
    {
        let action = match self.stage {
            Stage::ReadLine => {
                self.fed = 0;
                self.words = split_words(prompt);
                self.stage = Stage::StartTimer;
                Action::StartTimer
            },
            Stage::Closed(_) => Action::Close,
            _ => self.shut(CloseReason::OutOfTurn),
        };
        proof {
            use_type_invariant(&*self);
        }
        action
    }

    /// Takes the outcome of the last action and says what to do next.
    ///
    /// The new state and the action are those of [`next`]; the template is
    /// never changed. Every event is taken, in every state.
    pub fn step(&mut self, event: Event) -> (action: Action)
        ensures
            (final(self).session(), action@) == next(
                old(self).template(),
                old(self).session(),
                event,
            ),
            final(self).template() == old(self).template(),
            valid(final(self).session()),
    {
        proof {
            use_type_invariant(&*self);
            next_keeps_valid(self.template(), self.session(), event);
        }
        match self.stage {
            Stage::ReadLine => match event {
                Event::Line(line) => {
                    let prompt = self.template.render(line.as_str());
                    self.start_request(prompt.as_str())
                },
                Event::EndOfStream => self.shut(CloseReason::EndOfStream),
                Event::ReadFailed => self.shut(CloseReason::ReadFailed),
                _ => self.shut(CloseReason::OutOfTurn),
            },
            Stage::StartTimer => match event {
                Event::TimerStarted => {
                    self.fed = 0;
                    self.advance()
                },
                _ => self.shut(CloseReason::OutOfTurn),
            },
            Stage::Feed => match event {
                Event::Fed => {
                    self.stage = Stage::YieldAfterFeed;
                    Action::Yield
                },
                Event::FeedFailed => self.shut(CloseReason::FeedFailed),
                _ => self.shut(CloseReason::OutOfTurn),
            },
            Stage::YieldAfterFeed => match event {
                Event::Resumed => {
                    let count: usize = self.words.len();
                    assert(self.session().fed < self.session().words.len() == count);
                    self.stage = Stage::NextToken;
                    self.fed = self.fed + 1;
                    self.advance()
                },
                _ => self.shut(CloseReason::OutOfTurn),
            },
            Stage::NextToken => match event {
                Event::Token(bytes) => {
                    self.stage = Stage::WriteToken;
                    Action::Write(bytes)
                },
                Event::NoMoreTokens => {
                    self.stage = Stage::ReadTimer;
                    Action::ReadTimer
                },
                _ => self.shut(CloseReason::OutOfTurn),
            },
            Stage::WriteToken => match event {
                Event::Written => {
                    self.stage = Stage::YieldAfterToken;
                    Action::Yield
                },
                Event::WriteFailed => self.shut(CloseReason::WriteFailed),
                _ => self.shut(CloseReason::OutOfTurn),
            },
            Stage::YieldAfterToken => match event {
                Event::Resumed => {
                    self.stage = Stage::NextToken;
                    Action::NextToken
                },
                _ => self.shut(CloseReason::OutOfTurn),
            },
            Stage::ReadTimer => match event {
                Event::Elapsed { secs, nanos } => {
                    self.stage = Stage::WriteFooter;
                    Action::Write(footer(secs, nanos))
                },
                _ => self.shut(CloseReason::OutOfTurn),
            },
            Stage::WriteFooter => match event {
                Event::Written => {
                    self.stage = Stage::ReadLine;
                    Action::ReadLine
                },
                Event::WriteFailed => self.shut(CloseReason::WriteFailed),
                _ => self.shut(CloseReason::OutOfTurn),
            },
            Stage::Closed(_) => Action::Close,
        }
    }
}

/// The state of a connection that has seen `events`, one after the other,
/// since it was opened.
pub open spec fn after(template: Seq<char>, events: Seq<Event>) -> Session
    decreases events.len(),
{
    if events.len() == 0 {
        initial()
    } else {
        next(template, after(template, events.drop_last()), events.last()).0
    }
}

/// The action that answers the event at position `i` of `events`.
pub open spec fn command_at(template: Seq<char>, events: Seq<Event>, i: int) -> Command {
    next(template, after(template, events.take(i)), events[i]).1
}

/// The footer that answers a timer reading; empty for any other event.
pub open spec fn footer_for_reading(e: Event) -> Seq<u8> {
    match e {
        Event::Elapsed { secs, nanos } => footer_text(hundredths(secs as nat, nanos as nat)),
        _ => Seq::empty(),
    }
}

/// Every transition keeps the state valid.
pub proof fn next_keeps_valid(template: Seq<char>, s: Session, e: Event)
    requires
        valid(s),
    ensures
        valid(next(template, s, e).0),
{
}

/// Whatever a connection has seen, its state is valid.
pub proof fn runs_stay_valid(template: Seq<char>, events: Seq<Event>)
    ensures
        valid(after(template, events)),
    decreases events.len(),
{
    if events.len() > 0 {
        runs_stay_valid(template, events.drop_last());
        next_keeps_valid(template, after(template, events.drop_last()), events.last());
    }
}

/// A closed connection stays closed: whatever is reported to it, it changes
/// nothing and asks for nothing but to be dropped.
pub proof fn closed_stays_closed(template: Seq<char>, s: Session, e: Event)
    requires
        phase_of(s.stage) == Phase::Closed,
    ensures
        next(template, s, e) == (s, Command::Close),
{
}

/// An end of stream, a failed read, a refused word and a failed write close
/// the connection from every state, and nothing more is asked of the driver.
pub proof fn faults_close(template: Seq<char>, s: Session, e: Event)
    requires
        e == Event::EndOfStream || e == Event::ReadFailed || e == Event::FeedFailed || e
            == Event::WriteFailed,
    ensures
        phase_of(next(template, s, e).0.stage) == Phase::Closed,
        next(template, s, e).1 == Command::Close,
{
}

/// A token goes out the moment it is produced: the step that is handed a
/// token answers with the write of exactly its bytes.
pub proof fn token_is_written_at_once(template: Seq<char>, s: Session, bytes: Vec<u8>)
    requires
        s.stage == Stage::NextToken,
    ensures
        next(template, s, Event::Token(bytes)).1 == Command::Write(bytes@),
        phase_of(next(template, s, Event::Token(bytes)).0.stage) == Phase::Generating,
{
}

/// Nothing is written but a token that was just produced, as it is, or the
/// footer for the timer reading that was just taken.
pub proof fn writes_are_tokens_or_footer(template: Seq<char>, s: Session, e: Event, bytes: Seq<u8>)
    requires
        next(template, s, e).1 == Command::Write(bytes),
    ensures
        (s.stage == Stage::NextToken && e is Token && e->Token_0@ == bytes) || (s.stage
            == Stage::ReadTimer && e is Elapsed && bytes == footer_for_reading(e) && is_footer(
            bytes,
        )),
{
    match e {
        Event::Elapsed { secs, nanos } => {
            footer_has_shape(secs as nat, nanos as nat);
        },
        _ => {},
    }
}

/// The task yields after every word that the session took and after every
/// token that was written; and it feeds a word or asks for a token only at
/// the start of a request's work or on coming back from a yield.
pub proof fn work_alternates_with_yields(template: Seq<char>, s: Session, e: Event)
    ensures
        s.stage == Stage::Feed && e == Event::Fed ==> next(template, s, e).1 == Command::Yield,
        s.stage == Stage::WriteToken && e == Event::Written ==> next(template, s, e).1
            == Command::Yield,
        next(template, s, e).1 is Feed || next(template, s, e).1 == Command::NextToken ==> e
            == Event::Resumed || e == Event::TimerStarted,
{
}

/// Words are fed in the order of the prompt: the word that is fed is the one
/// at the position that counts the words already taken.
pub proof fn words_are_fed_in_order(template: Seq<char>, s: Session, e: Event, word: Seq<char>)
    requires
        valid(s),
        next(template, s, e).1 == Command::Feed(word),
    ensures
        next(template, s, e).0.words == s.words,
        next(template, s, e).0.fed < s.words.len(),
        word == s.words[next(template, s, e).0.fed as int],
        next(template, s, e).0.fed == (if e == Event::TimerStarted {
            0
        } else {
            s.fed + 1
        }),
{
}

/// Requests on one connection never overlap. A connection that has seen
/// anything waits for a line only when the last thing it saw was the
/// completed write of a footer: the footer of the request before, for the
/// timer reading that came just before that.
pub proof fn line_awaited_only_after_footer(template: Seq<char>, events: Seq<Event>)
    requires
        events.len() > 0,
        after(template, events).stage == Stage::ReadLine,
    ensures
        events.len() >= 2,
        events.last() == Event::Written,
        events[events.len() - 2] is Elapsed,
        command_at(template, events, events.len() - 2) == Command::Write(
            footer_for_reading(events[events.len() - 2]),
        ),
{
    let n = events.len() as int;
    let front = events.drop_last();
    let before = after(template, front);
    assert(before.stage == Stage::WriteFooter);
    assert(front.len() > 0);
    let start = front.drop_last();
    assert(start =~= events.take(n - 2));
    assert(front.last() == events[n - 2]);
    assert(after(template, start).stage == Stage::ReadTimer);
}

/// A write is awaited before anything else happens: while a token or the
/// footer is being written, only the completed write lets the connection go
/// on. After a token the task yields; after the footer the next line is read.
pub proof fn writes_complete_before_work_goes_on(template: Seq<char>, s: Session, e: Event)
    requires
        s.stage == Stage::WriteToken || s.stage == Stage::WriteFooter,
        next(template, s, e).1 != Command::Close,
    ensures
        e == Event::Written,
        s.stage == Stage::WriteToken ==> next(template, s, e).1 == Command::Yield,
        s.stage == Stage::WriteFooter ==> next(template, s, e).1 == Command::ReadLine,
{
}

/// A line is taken only by a connection that waits for one; at any other
/// stage, a line closes the connection.
pub proof fn line_is_taken_only_when_awaited(template: Seq<char>, s: Session, line: String)
    ensures
        next(template, s, Event::Line(line)).1 == Command::StartTimer <==> s.stage
            == Stage::ReadLine,
        s.stage != Stage::ReadLine ==> next(template, s, Event::Line(line)).1 == Command::Close,
{
}

} // verus!
