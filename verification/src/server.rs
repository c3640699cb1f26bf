//! Many connections on one scheduler, and the loop that accepts them.
//!
//! The scheduler may interleave the connections' turns in any order. What a
//! connection does depends on its own events alone.

use crate::session::{after, initial, next, Event, Session};
use crate::wire::{after_is_run, bytes_of, run, run_splits, run_unfolds, wire};
use vstd::prelude::*;

verus! {

/// One turn of the scheduler: connection `conn` is told `event`.
pub struct Turn {
    pub conn: nat,
    pub event: Event,
}

/// The events of `schedule` that go to connection `conn`, in their order.
pub open spec fn events_of(schedule: Seq<Turn>, conn: nat) -> Seq<Event>
    decreases schedule.len(),
{
    if schedule.len() == 0 {
        Seq::empty()
    } else if schedule.last().conn == conn {
        events_of(schedule.drop_last(), conn).push(schedule.last().event)
    } else {
        events_of(schedule.drop_last(), conn)
    }
}

/// The states of `count` connections, all opened fresh, after the turns of
/// `schedule`. A turn for a connection that does not exist changes nothing.
pub open spec fn serve(template: Seq<char>, count: nat, schedule: Seq<Turn>) -> Seq<Session>
    decreases schedule.len(),
{
    if schedule.len() == 0 {
        Seq::new(count, |i: int| initial())
    } else {
        let before = serve(template, count, schedule.drop_last());
        let turn = schedule.last();
        if turn.conn < before.len() {
            before.update(turn.conn as int, next(template, before[turn.conn as int], turn.event).0)
        } else {
            before
        }
    }
}

/// Connections are isolated. However the scheduler interleaves the turns,
/// and whatever the other connections are told (a failure, an event out of
/// turn), each connection is in the state that its own events alone lead to.
pub proof fn connections_are_isolated(
    template: Seq<char>,
    count: nat,
    schedule: Seq<Turn>,
    conn: nat,
)
    requires
        conn < count,
    ensures
        serve(template, count, schedule).len() == count,
        serve(template, count, schedule)[conn as int] == after(
            template,
            events_of(schedule, conn),
        ),
    decreases schedule.len(),
{
    if schedule.len() > 0 {
        let rest = schedule.drop_last();
        connections_are_isolated(template, count, rest, conn);
        let turn = schedule.last();
        if turn.conn == conn {
            let mine = events_of(rest, conn);
            assert(mine.push(turn.event).drop_last() =~= mine);
        }
    }
}

/// A turn of one connection leaves every other connection as it was.
pub proof fn turn_touches_one_connection(
    template: Seq<char>,
    count: nat,
    schedule: Seq<Turn>,
    turn: Turn,
    other: nat,
)
    requires
        other < count,
        turn.conn != other,
    ensures
        serve(template, count, schedule.push(turn))[other as int] == serve(
            template,
            count,
            schedule,
        )[other as int],
{
    connections_are_isolated(template, count, schedule, other);
    assert(schedule.push(turn).drop_last() =~= schedule);
}

/// The bytes that connection `conn` is told to write during `schedule`.
pub open spec fn written_to(
    template: Seq<char>,
    count: nat,
    schedule: Seq<Turn>,
    conn: nat,
) -> Seq<u8>
    decreases schedule.len(),
{
    if schedule.len() == 0 {
        Seq::empty()
    } else {
        let before = serve(template, count, schedule.drop_last());
        let turn = schedule.last();
        let earlier = written_to(template, count, schedule.drop_last(), conn);
        if turn.conn == conn && conn < before.len() {
            earlier + bytes_of(next(template, before[conn as int], turn.event).1)
        } else {
            earlier
        }
    }
}

/// What a connection writes is isolated too. However the turns are
/// interleaved and whatever happens on the other connections, a connection
/// writes the bytes that its own events alone call for, in their order.
pub proof fn written_bytes_are_isolated(
    template: Seq<char>,
    count: nat,
    schedule: Seq<Turn>,
    conn: nat,
)
    requires
        conn < count,
    ensures
        written_to(template, count, schedule, conn) == wire(
            template,
            initial(),
            events_of(schedule, conn),
        ),
    decreases schedule.len(),
{
    if schedule.len() > 0 {
        let rest = schedule.drop_last();
        let turn = schedule.last();
        written_bytes_are_isolated(template, count, rest, conn);
        connections_are_isolated(template, count, rest, conn);
        if turn.conn == conn {
            let mine = events_of(rest, conn);
            let state = run(template, initial(), mine);
            after_is_run(template, mine);
            assert(mine.push(turn.event) =~= mine + seq![turn.event]);
            run_splits(template, initial(), mine, seq![turn.event]);
            run_unfolds(template, state, turn.event, Seq::empty());
            assert(seq![turn.event] + Seq::<Event>::empty() =~= seq![turn.event]);
            assert(bytes_of(next(template, state, turn.event).1) + Seq::<u8>::empty() =~= bytes_of(
                next(template, state, turn.event).1,
            ));
        }
    }
}

/// What came of waiting for a connection.
#[derive(Clone, Copy, Debug, PartialEq, Eq, Structural)]
pub enum Accepted {
    /// A client connected.
    Connection,
    /// Accepting failed.
    Failure,
}

/// What the accept loop does next.
#[derive(Clone, Copy, Debug, PartialEq, Eq, Structural)]
pub enum ListenerAction {
    /// Start a detached handler task for the new connection, then wait for
    /// the next one.
    SpawnAndAccept,
    /// Stop accepting.
    Stop,
}

/// What the accept loop does on `outcome`.
pub open spec fn listener_next(listening: bool, outcome: Accepted) -> (bool, ListenerAction) {
    if listening && outcome == Accepted::Connection {
        (true, ListenerAction::SpawnAndAccept)
    } else {
        (false, ListenerAction::Stop)
    }
}

/// The accept loop. It takes no word from the handlers that it starts: what
/// becomes of a connection never reaches it.
pub struct Listener {
    listening: bool,
}

impl Listener {
    /// Whether the loop still accepts connections.
    pub closed spec fn listening(&self) -> bool {
        self.listening
    }

    /// A listener that accepts connections.
    pub fn new() -> (listener: Listener)
        ensures
            listener.listening(),
    {
        Listener { listening: true }
    }

    /// Whether the loop still accepts connections.
    pub fn is_listening(&self) -> (yes: bool)
        ensures
            yes == self.listening(),
    {
        self.listening
    }

    /// Takes the outcome of an accept. Every connection is handed to a task
    /// of its own and the loop goes on; only a failure to accept ends it, and
    /// it then stays ended.
    pub fn step(&mut self, outcome: Accepted) -> (action: ListenerAction)
        ensures
            (final(self).listening(), action) == listener_next(old(self).listening(), outcome),
    {
        if self.listening && outcome == Accepted::Connection {
            ListenerAction::SpawnAndAccept
        } else {
            self.listening = false;
            ListenerAction::Stop
        }
    }
}

} // verus!
