use vstd::prelude::*;
use crate::state::State;

verus! {

/// The abstract state of a monitor: how many times a snapshot was published,
/// and the latest one.
pub struct MonitorModel {
    pub version: u64,
    pub current: State,
}

/// What a reader whose cursor has seen publish `seen` learns: the latest
/// snapshot if a later publish happened, else nothing yet.
pub open spec fn poll(m: MonitorModel, seen: u64) -> Option<State> {
    if seen < m.version {
        Some(m.current)
    } else {
        None
    }
}

/// The monitor after publishing `s`: a new publish event, whatever its content.
pub open spec fn published(m: MonitorModel, s: State) -> MonitorModel {
    MonitorModel { version: (m.version + 1) as u64, current: s }
}

/// A reader's position: the last publish event it has seen.
#[derive(Clone, Copy, Debug)]
pub struct Cursor {
    seen: u64,
}

impl View for Cursor {
    type V = u64;

    closed spec fn view(&self) -> u64 {
        self.seen
    }
}

/// Last-value broadcast of the current snapshot. One writer publishes; each
/// reader holds a cursor and learns of the newest snapshot once per publish
/// event after its cursor, skipping any it was not asked for in between.
pub struct Monitor {
    version: u64,
    current: State,
}

impl View for Monitor {
    type V = MonitorModel;

    closed spec fn view(&self) -> MonitorModel {
        MonitorModel { version: self.version, current: self.current }
    }
}

impl Monitor {
    /// A monitor holding the first snapshot, with no publish event yet.
    pub fn new(initial: State) -> (r: Monitor)
        ensures
            r@ == (MonitorModel { version: 0, current: initial }),
    {
        Monitor { version: 0, current: initial }
    }

    /// The latest snapshot.
    pub fn current(&self) -> (r: State)
        ensures
            r == self@.current,
    {
        self.current
    }

    /// The number of publish events so far.
    pub fn version(&self) -> (r: u64)
        ensures
            r == self@.version,
    {
        self.version
    }

    /// A cursor for a new reader: it has seen everything published so far,
    /// and learns only of later publish events.
    pub fn subscribe(&self) -> (c: Cursor)
        ensures
            c@ == self@.version,
    {
        Cursor { seen: self.version }
    }

    /// Replaces the current snapshot and marks a new publish event, which
    /// every reader learns of, even if the content is unchanged.
    pub fn publish(&mut self, s: State)
        requires
            old(self)@.version < u64::MAX,
        ensures
            final(self)@ == published(old(self)@, s),
    {
        self.version = self.version + 1;
        self.current = s;
    }

    /// The newest snapshot if a publish event happened after `cursor`,
    /// advancing the cursor to it; nothing, and the cursor unchanged,
    /// otherwise.
    pub fn changed_state(&self, cursor: &mut Cursor) -> (r: Option<State>)
        ensures
            r == poll(self@, old(cursor)@),
            r is Some ==> final(cursor)@ == self@.version,
            r is None ==> final(cursor)@ == old(cursor)@,
            old(cursor)@ <= final(cursor)@,
    {
        if cursor.seen < self.version {
            cursor.seen = self.version;
            Some(self.current)
        } else {
            None
        }
    }
}

/// Two readers that are both waiting, having seen every publish so far,
/// both learn of the next published snapshot, and nothing before it; a reader
/// that subscribes after that publish does not receive it.
pub proof fn lemma_waiters_see_next_publish(m: MonitorModel, a: u64, b: u64, s: State)
    requires
        a == m.version,
        b == m.version,
        m.version < u64::MAX,
    ensures
        poll(m, a) is None,
        poll(m, b) is None,
        poll(published(m, s), a) == Some(s),
        poll(published(m, s), b) == Some(s),
        poll(published(m, s), published(m, s).version) is None,
{
}

/// A reader that subscribes after a publish does not receive that publish:
/// it learns nothing until the next publish, and then that later snapshot.
pub proof fn lemma_late_cursor_gets_only_later(m: MonitorModel, s: State, t: State)
    requires
        m.version < u64::MAX - 1,
    ensures
        poll(published(m, s), published(m, s).version) is None,
        poll(published(published(m, s), t), published(m, s).version) == Some(t),
{
}

} // verus!
