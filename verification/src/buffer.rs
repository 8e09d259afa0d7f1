//! The buffer into which a provider hands its events once per tick.

use vstd::prelude::*;

use crate::event::{GameplayEvent, HandlerOutput};

verus! {

/// What draining hands out, and what it leaves behind: everything, and
/// nothing.
pub open spec fn drain_all<T>(pending: Seq<T>) -> (Seq<T>, Seq<T>) {
    (pending, Seq::empty())
}

/// Draining twice in a row hands out nothing the second time, and what is
/// produced after a drain is handed out by the next drain alone, in the order
/// in which it was produced.
pub proof fn lemma_drain_is_monotonic<T>(pending: Seq<T>, produced: Seq<T>)
    ensures
        drain_all(pending).0 == pending,
        drain_all(drain_all(pending).1).0 == Seq::<T>::empty(),
        drain_all(drain_all(pending).1 + produced).0 == produced,
        drain_all(drain_all(pending).1 + produced).1 == Seq::<T>::empty(),
{
    assert(Seq::<T>::empty() + produced =~= produced);
}

/// Buffer for gameplay events. It exists so that the list a consumer reads
/// every tick is allocated once; reusing it changes nothing that can be
/// observed.
#[derive(Debug, PartialEq, Eq)]
pub struct GameplayEventBuffer(pub(crate) Vec<GameplayEvent>);

impl View for GameplayEventBuffer {
    type V = Seq<GameplayEvent>;

    closed spec fn view(&self) -> Seq<GameplayEvent> {
        self.0@
    }
}

impl GameplayEventBuffer {
    pub fn new() -> (buffer: Self)
        ensures
            buffer@ == Seq::<GameplayEvent>::empty(),
    {
        GameplayEventBuffer(Vec::new())
    }

    /// Hands out every event in arrival order and leaves the buffer empty.
    pub fn drain(&mut self) -> (events: Vec<GameplayEvent>)
        ensures
            events@ == drain_all(old(self)@).0,
            final(self)@ == drain_all(old(self)@).1,
    {
        let mut events = Vec::new();
        std::mem::swap(&mut self.0, &mut events);
        events
    }

    pub fn push(&mut self, event: GameplayEvent)
        ensures
            final(self)@ == old(self)@.push(event),
    {
        self.0.push(event);
    }

    /// Moves every event of `events` to the end of the buffer, in order.
    pub fn append(&mut self, events: &mut Vec<GameplayEvent>)
        ensures
            final(self)@ == old(self)@ + old(events)@,
            final(events)@ == Seq::<GameplayEvent>::empty(),
    {
        self.0.append(events);
    }

    /// Appends what a handler produced, in order.
    pub fn push_output(&mut self, output: HandlerOutput)
        ensures
            final(self)@ == old(self)@ + output@,
    {
        match output {
            HandlerOutput::Nothing => {
                assert(self@ + Seq::<GameplayEvent>::empty() =~= self@);
            },
            HandlerOutput::One(event) => {
                self.0.push(event);
                assert(old(self)@.push(event) =~= old(self)@ + seq![event]);
            },
            HandlerOutput::Many(mut events) => {
                self.0.append(&mut events);
            },
        }
    }

    pub fn len(&self) -> (count: usize)
        ensures
            count == self@.len(),
    {
        self.0.len()
    }

    pub fn is_empty(&self) -> (empty: bool)
        ensures
            empty == (self@.len() == 0),
    {
        self.0.len() == 0
    }

    /// The events as a list, in arrival order.
    pub fn into_events(self) -> (events: Vec<GameplayEvent>)
        ensures
            events@ == self@,
    {
        self.0
    }
}

impl Default for GameplayEventBuffer {
    fn default() -> (buffer: Self)
        ensures
            buffer@ == Seq::<GameplayEvent>::empty(),
    {
        GameplayEventBuffer::new()
    }
}

impl From<GameplayEvent> for GameplayEventBuffer {
    fn from(event: GameplayEvent) -> (buffer: Self)
        ensures
            buffer@ == seq![event],
    {
        let mut events = Vec::new();
        events.push(event);
        GameplayEventBuffer(events)
    }
}

impl vstd::std_specs::convert::FromSpecImpl<GameplayEvent> for GameplayEventBuffer {
    open spec fn obeys_from_spec() -> bool {
        false
    }

    open spec fn from_spec(event: GameplayEvent) -> Self {
        arbitrary()
    }
}

impl From<Vec<GameplayEvent>> for GameplayEventBuffer {
    fn from(events: Vec<GameplayEvent>) -> (buffer: Self)
        ensures
            buffer@ == events@,
    {
        GameplayEventBuffer(events)
    }
}

impl vstd::std_specs::convert::FromSpecImpl<Vec<GameplayEvent>> for GameplayEventBuffer {
    open spec fn obeys_from_spec() -> bool {
        false
    }

    open spec fn from_spec(events: Vec<GameplayEvent>) -> Self {
        arbitrary()
    }
}

impl From<Option<GameplayEvent>> for GameplayEventBuffer {
    fn from(event: Option<GameplayEvent>) -> (buffer: Self)
        ensures
            buffer@ == match event {
                Some(event) => seq![event],
                None => Seq::empty(),
            },
    {
        match event {
            Some(event) => {
                let mut events = Vec::new();
                events.push(event);
                GameplayEventBuffer(events)
            },
            None => GameplayEventBuffer(Vec::new()),
        }
    }
}

impl vstd::std_specs::convert::FromSpecImpl<Option<GameplayEvent>> for GameplayEventBuffer {
    open spec fn obeys_from_spec() -> bool {
        false
    }

    open spec fn from_spec(event: Option<GameplayEvent>) -> Self {
        arbitrary()
    }
}

} // verus!
