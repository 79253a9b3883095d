use vstd::prelude::*;

verus! {

/// Where a reduction stands between two resumptions.
#[derive(Debug, Clone, PartialEq, Eq)]
pub enum Phase<T> {
    /// Nothing produced yet: the next item seeds the accumulator.
    AwaitingFirst,
    /// A merge task is in flight; the accumulator went into it.
    AwaitingMerge,
    /// Idle between items, holding the accumulator.
    Holding(T),
    /// The final result was handed out.
    Done,
}

/// The outcome of the sub-operation that [`Reducer::target`] named.
#[derive(Debug, Clone, PartialEq, Eq)]
pub enum Event<T> {
    /// The sub-operation suspended.
    Pending,
    /// The source produced an item.
    Item(T),
    /// The source is exhausted.
    Exhausted,
    /// The pending merge task resolved to a new accumulator.
    Merged(T),
}

/// What the driver does after an event.
#[derive(Debug, Clone, PartialEq, Eq)]
pub enum Action<T> {
    /// Propagate the suspension to the caller.
    Suspend,
    /// Poll again whatever [`Reducer::target`] now names.
    Continue,
    /// Call the merge function on the accumulator and the item, keep the
    /// returned task as the pending merge, and poll it.
    Merge(T, T),
    /// The reduction is over with this result.
    Finish(Option<T>),
}

/// The sub-operation that the next poll goes to.
#[derive(Debug, Clone, Copy, PartialEq, Eq, Structural)]
pub enum Target {
    Source,
    MergeTask,
}

/// Which events a phase can receive: a merge result only while a merge is
/// in flight, a source outcome only while none is, nothing once done.
pub open spec fn accepts<T>(p: Phase<T>, e: Event<T>) -> bool {
    match p {
        Phase::Done => false,
        Phase::AwaitingMerge => e is Pending || e is Merged,
        _ => !(e is Merged),
    }
}

/// The transition table: the next phase and the action for an event.
pub open spec fn step<T>(p: Phase<T>, e: Event<T>) -> (Phase<T>, Action<T>) {
    match (p, e) {
        (Phase::AwaitingFirst, Event::Item(x)) => (Phase::Holding(x), Action::Continue),
        (Phase::AwaitingFirst, Event::Exhausted) => (Phase::Done, Action::Finish(None)),
        (Phase::Holding(a), Event::Item(x)) => (Phase::AwaitingMerge, Action::Merge(a, x)),
        (Phase::Holding(a), Event::Exhausted) => (Phase::Done, Action::Finish(Some(a))),
        (Phase::AwaitingMerge, Event::Merged(v)) => (Phase::Holding(v), Action::Continue),
        _ => (p, Action::Suspend),
    }
}

/// The sub-operation a phase waits on.
pub open spec fn target_of<T>(p: Phase<T>) -> Target {
    if p is AwaitingMerge {
        Target::MergeTask
    } else {
        Target::Source
    }
}

/// The decision core of a seedless reduction.
#[derive(Debug)]
pub struct Reducer<T> {
    phase: Phase<T>,
}

impl<T> Reducer<T> {
    /// The phase the reduction is in.
    pub closed spec fn phase(&self) -> Phase<T> {
        self.phase
    }

    /// A reduction that has not started: no item seen, no merge in flight.
    pub fn new() -> (r: Self)
        ensures
            r.phase() is AwaitingFirst,
    {
        Reducer { phase: Phase::AwaitingFirst }
    }

    /// Whether the final result was handed out. A finished reduction must
    /// not be resumed again.
    pub fn is_done(&self) -> (r: bool)
        ensures
            r == (self.phase() is Done),
    {
        match self.phase {
            Phase::Done => true,
            _ => false,
        }
    }

    /// The sub-operation to poll next: the pending merge task while one is
    /// in flight, the source otherwise.
    pub fn target(&self) -> (r: Target)
        requires
            !(self.phase() is Done),
        ensures
            r == target_of(self.phase()),
    {
        match self.phase {
            Phase::AwaitingMerge => Target::MergeTask,
            _ => Target::Source,
        }
    }

    /// Takes the outcome of the poll that [`Reducer::target`] named and
    /// decides what happens next. A suspension changes nothing; the first
    /// item seeds the accumulator; a later item is handed, together with the
    /// accumulator, to a merge; exhaustion ends the reduction with the
    /// accumulator, or with `None` if nothing was produced.
    pub fn resume(&mut self, event: Event<T>) -> (action: Action<T>)
        requires
            accepts(old(self).phase(), event),
        ensures
            (final(self).phase(), action) == step(old(self).phase(), event),
            (action is Finish) == (final(self).phase() is Done),
    {
        let mut phase = Phase::Done;
        core::mem::swap(&mut phase, &mut self.phase);
        match event {
            Event::Pending => {
                self.phase = phase;
                Action::Suspend
            },
            Event::Item(x) => match phase {
                Phase::Holding(a) => {
                    self.phase = Phase::AwaitingMerge;
                    Action::Merge(a, x)
                },
                _ => {
                    self.phase = Phase::Holding(x);
                    Action::Continue
                },
            },
            Event::Exhausted => match phase {
                Phase::Holding(a) => Action::Finish(Some(a)),
                _ => Action::Finish(None),
            },
            Event::Merged(v) => {
                self.phase = Phase::Holding(v);
                Action::Continue
            },
        }
    }
}

} // verus!
