//! The render worker's decisions: which of the commands waiting in its queue
//! it acts on.
//!
//! The worker itself, its thread and its queue live outside this library. It
//! hands each thing that happens to `Worker::step` and does what the returned
//! `Action` says. The type `V` of the viewport rectangle is the caller's: the
//! worker never looks inside it.

use vstd::prelude::*;

verus! {

/// A request to render the viewport `rect` into a raster of the given size.
#[derive(Debug, PartialEq)]
pub struct RenderRequest<V> {
    pub rect: V,
    pub target_width: usize,
    pub target_height: usize,
}

/// What the session asks of the worker.
#[derive(Debug, PartialEq)]
pub enum Command<V> {
    Render(RenderRequest<V>),
    Quit,
}

/// What the worker's runner reports.
#[derive(Debug, PartialEq)]
pub enum Event<V> {
    /// A command was taken from the queue.
    Arrived(Command<V>),
    /// The queue was polled and held nothing.
    Empty,
}

/// What the worker's runner does next.
#[derive(Debug, PartialEq)]
pub enum Action<V> {
    /// Block until a command arrives, and report it.
    Wait,
    /// Look into the queue without blocking, and report what was there.
    Poll,
    /// Render this request to the end, hand the image over, then block until
    /// a command arrives, and report it.
    Render(RenderRequest<V>),
    /// Return: the worker has ended. Nothing more is taken from the queue.
    Stop,
}

/// The worker's state between two events.
#[derive(Debug, PartialEq)]
pub enum Worker<V> {
    /// Nothing is pending.
    Waiting,
    /// The queue is being drained; `latest` is the most recent render request
    /// seen so far.
    Draining { latest: RenderRequest<V> },
    /// `Quit` was seen.
    Stopped,
}

/// The events of a batch of commands taken from the queue one after the other.
pub open spec fn arrivals<V>(batch: Seq<Command<V>>) -> Seq<Event<V>> {
    batch.map_values(|c: Command<V>| Event::Arrived(c))
}

/// The batch of commands that a run of render requests makes.
pub open spec fn renders<V>(requests: Seq<RenderRequest<V>>) -> Seq<Command<V>> {
    requests.map_values(|r: RenderRequest<V>| Command::Render(r))
}

impl<V> Worker<V> {
    /// The transition: the state after `event`, and what to do next.
    ///
    /// `Quit` stops the worker from any state, and a stopped worker stays
    /// stopped. A render request replaces the one held, if any, and the queue
    /// is polled again. When the queue is empty the request held is rendered.
    pub open spec fn step_spec(self, event: Event<V>) -> (Worker<V>, Action<V>) {
        match self {
            Worker::Stopped => (Worker::Stopped, Action::Stop),
            Worker::Waiting => match event {
                Event::Arrived(Command::Quit) => (Worker::Stopped, Action::Stop),
                Event::Arrived(Command::Render(request)) => (
                    Worker::Draining { latest: request },
                    Action::Poll,
                ),
                Event::Empty => (Worker::Waiting, Action::Wait),
            },
            Worker::Draining { latest } => match event {
                Event::Arrived(Command::Quit) => (Worker::Stopped, Action::Stop),
                Event::Arrived(Command::Render(request)) => (
                    Worker::Draining { latest: request },
                    Action::Poll,
                ),
                Event::Empty => (Worker::Waiting, Action::Render(latest)),
            },
        }
    }

    /// The state after a sequence of events.
    pub open spec fn run(self, events: Seq<Event<V>>) -> Worker<V>
        decreases events.len(),
    {
        if events.len() == 0 {
            self
        } else {
            self.run(events.drop_last()).step_spec(events.last()).0
        }
    }

    /// The actions that a sequence of events draws, one for each event.
    pub open spec fn actions(self, events: Seq<Event<V>>) -> Seq<Action<V>>
        decreases events.len(),
    {
        if events.len() == 0 {
            Seq::empty()
        } else {
            self.actions(events.drop_last()).push(
                self.run(events.drop_last()).step_spec(events.last()).1,
            )
        }
    }

    /// A worker with nothing pending. Its runner starts by waiting for a
    /// command.
    pub fn new() -> (worker: Worker<V>)
        ensures
            worker == Worker::<V>::Waiting,
    {
        Worker::Waiting
    }

    /// Takes one event and says what to do next.
    pub fn step(self, event: Event<V>) -> (next: (Worker<V>, Action<V>))
        ensures
            next == self.step_spec(event),
    {
        match self {
            Worker::Stopped => (Worker::Stopped, Action::Stop),
            Worker::Waiting => match event {
                Event::Arrived(Command::Quit) => (Worker::Stopped, Action::Stop),
                Event::Arrived(Command::Render(request)) => (
                    Worker::Draining { latest: request },
                    Action::Poll,
                ),
                Event::Empty => (Worker::Waiting, Action::Wait),
            },
            Worker::Draining { latest } => match event {
                Event::Arrived(Command::Quit) => (Worker::Stopped, Action::Stop),
                Event::Arrived(Command::Render(request)) => (
                    Worker::Draining { latest: request },
                    Action::Poll,
                ),
                Event::Empty => (Worker::Waiting, Action::Render(latest)),
            },
        }
    }

    /// Whether the worker has ended.
    pub fn is_stopped(&self) -> (stopped: bool)
        ensures
            stopped == (*self is Stopped),
    {
        match self {
            Worker::Stopped => true,
            _ => false,
        }
    }
}

/// `Quit` wins. Whatever the worker's state, once a `Quit` is taken from the
/// queue after any number of render requests that were queued before it, the
/// worker has stopped and has rendered none of them: every action up to there
/// was to poll the queue again, and the last is to stop.
pub proof fn lemma_quit_wins<V>(start: Worker<V>, queued: Seq<RenderRequest<V>>)
    ensures
        ({
            let events = arrivals(renders(queued).push(Command::Quit));
            &&& start.run(events) is Stopped
            &&& start.actions(events).len() == queued.len() + 1
            &&& start.actions(events).last() is Stop
            &&& forall|i: int|
                0 <= i <= queued.len() ==> !(#[trigger] start.actions(events)[i] is Render)
            &&& !(start is Stopped) ==> forall|i: int|
                0 <= i < queued.len() ==> #[trigger] start.actions(events)[i] is Poll
        }),
{
    let events = arrivals(renders(queued).push(Command::Quit));
    let before = arrivals(renders(queued));
    assert(events.drop_last() =~= before);
    assert(events.last() == Event::Arrived(Command::<V>::Quit));
    lemma_draining(start, queued);
    assert forall|i: int| 0 <= i <= queued.len() implies !(#[trigger] start.actions(events)[i]
        is Render) by {
        if i < queued.len() {
            assert(start.actions(events)[i] == start.actions(before)[i]);
        }
    }
    if !(start is Stopped) {
        assert forall|i: int| 0 <= i < queued.len() implies #[trigger] start.actions(events)[i]
            is Poll by {
            assert(start.actions(events)[i] == start.actions(before)[i]);
        }
    }
}

/// The latest request wins. A waiting worker that finds one or more render
/// requests queued, and then the queue empty, renders the last of them and no
/// other, and waits again.
pub proof fn lemma_latest_render_wins<V>(queued: Seq<RenderRequest<V>>)
    requires
        queued.len() > 0,
    ensures
        ({
            let events = arrivals(renders(queued)).push(Event::Empty);
            let start = Worker::<V>::Waiting;
            &&& start.run(events) is Waiting
            &&& start.actions(events).len() == queued.len() + 1
            &&& start.actions(events).last() == Action::Render(queued.last())
            &&& forall|i: int|
                0 <= i < queued.len() ==> #[trigger] start.actions(events)[i] is Poll
        }),
{
    let before = arrivals(renders(queued));
    let events = before.push(Event::Empty);
    let start = Worker::<V>::Waiting;
    assert(events.drop_last() =~= before);
    assert(events.last() == Event::<V>::Empty);
    lemma_draining(start, queued);
    assert forall|i: int| 0 <= i < queued.len() implies #[trigger] start.actions(events)[i]
        is Poll by {
        assert(start.actions(events)[i] == start.actions(before)[i]);
    }
}

/// A stopped worker stays stopped, and every action it gives is to stop.
pub proof fn lemma_stopped_is_final<V>(events: Seq<Event<V>>)
    ensures
        Worker::<V>::Stopped.run(events) is Stopped,
        Worker::<V>::Stopped.actions(events).len() == events.len(),
        forall|i: int|
            0 <= i < events.len() ==> #[trigger] Worker::<V>::Stopped.actions(events)[i] is Stop,
    decreases events.len(),
{
    if events.len() > 0 {
        lemma_stopped_is_final(events.drop_last());
    }
}

/// An in-flight render is not preempted: the request that a `Render` action
/// names does not depend on anything that arrives after the queue was found
/// empty.
pub proof fn lemma_later_commands_wait<V>(
    held: RenderRequest<V>,
    later: Seq<Event<V>>,
)
    ensures
        ({
            let start = Worker::Draining { latest: held };
            let events = seq![Event::<V>::Empty] + later;
            &&& start.actions(events)[0] == Action::Render(held)
            &&& start.run(events) == Worker::<V>::Waiting.run(later)
        }),
    decreases later.len(),
{
    let start = Worker::Draining { latest: held };
    let events = seq![Event::<V>::Empty] + later;
    if later.len() == 0 {
        assert(events.drop_last() =~= Seq::<Event<V>>::empty());
        assert(start.run(events.drop_last()) == start);
        assert(start.actions(events.drop_last()) =~= Seq::<Action<V>>::empty());
    } else {
        lemma_later_commands_wait(held, later.drop_last());
        assert(events.drop_last() =~= seq![Event::<V>::Empty] + later.drop_last());
        assert(events.last() == later.last());
        lemma_actions_len(start, events.drop_last());
    }
}

/// One action is given for each event.
pub proof fn lemma_actions_len<V>(start: Worker<V>, events: Seq<Event<V>>)
    ensures
        start.actions(events).len() == events.len(),
    decreases events.len(),
{
    if events.len() > 0 {
        lemma_actions_len(start, events.drop_last());
    }
}

/// While only render requests arrive the worker keeps polling and holds the
/// last of them; a stopped worker stays stopped.
proof fn lemma_draining<V>(start: Worker<V>, queued: Seq<RenderRequest<V>>)
    ensures
        ({
            let events = arrivals(renders(queued));
            let end = start.run(events);
            let actions = start.actions(events);
            &&& actions.len() == queued.len()
            &&& start is Stopped ==> end is Stopped
            &&& !(start is Stopped) && queued.len() > 0 ==> end == (Worker::Draining {
                latest: queued.last(),
            })
            &&& queued.len() == 0 ==> end == start
            &&& forall|i: int| 0 <= i < queued.len() ==> !(#[trigger] actions[i] is Render)
            &&& !(start is Stopped) ==> forall|i: int|
                0 <= i < queued.len() ==> #[trigger] actions[i] is Poll
        }),
    decreases queued.len(),
{
    let events = arrivals(renders(queued));
    if queued.len() > 0 {
        let shorter = queued.drop_last();
        lemma_draining(start, shorter);
        assert(events.drop_last() =~= arrivals(renders(shorter)));
        assert(events.last() == Event::Arrived(Command::Render(queued.last())));
        let actions = start.actions(events);
        let earlier = start.actions(events.drop_last());
        assert forall|i: int| 0 <= i < queued.len() implies !(#[trigger] actions[i] is Render) by {
            if i < queued.len() - 1 {
                assert(actions[i] == earlier[i]);
            }
        }
        if !(start is Stopped) {
            assert forall|i: int| 0 <= i < queued.len() implies #[trigger] actions[i] is Poll by {
                if i < queued.len() - 1 {
                    assert(actions[i] == earlier[i]);
                }
            }
        }
    }
}

} // verus!
