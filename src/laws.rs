use vstd::prelude::*;
use crate::reducer::{accepts, step, Action, Event, Phase};

verus! {

/// A whole reduction from phase `p`: the source yields `items` in order and
/// never suspends, and each merge task resolves at once to `f` of the
/// arguments it was started with. The result is the final value and the
/// arguments of every merge call, in the order the calls were made.
pub open spec fn run<T>(p: Phase<T>, items: Seq<T>, f: spec_fn(T, T) -> T) -> (Option<T>, Seq<(T, T)>)
    decreases items.len(),
{
    if items.len() == 0 {
        match step(p, Event::Exhausted).1 {
            Action::Finish(r) => (r, Seq::empty()),
            _ => (None, Seq::empty()),
        }
    } else {
        let rest = items.drop_first();
        match step(p, Event::Item(items[0])) {
            (q, Action::Merge(acc, item)) => {
                let next = step(q, Event::Merged(f(acc, item))).0;
                let (r, calls) = run(next, rest, f);
                (r, seq![(acc, item)] + calls)
            },
            (q, _) => run(q, rest, f),
        }
    }
}

/// What a sequence of events makes a reduction do from phase `p`: the phase
/// it ends in and every action but the suspensions, in order.
pub open spec fn work<T>(p: Phase<T>, events: Seq<Event<T>>) -> (Phase<T>, Seq<Action<T>>)
    decreases events.len(),
{
    if events.len() == 0 {
        (p, Seq::empty())
    } else {
        let (q, a) = step(p, events[0]);
        let (end, actions) = work(q, events.drop_first());
        (end, if a is Suspend { actions } else { seq![a] + actions })
    }
}

/// An empty source reduces to `None`, and the merge function is never
/// called.
pub proof fn lemma_empty_source<T>(items: Seq<T>, f: spec_fn(T, T) -> T)
    requires
        items.len() == 0,
    ensures
        run(Phase::AwaitingFirst, items, f) == (None::<T>, Seq::<(T, T)>::empty()),
{
}

/// A source of one item `x` reduces to `Some(x)`, and the merge function is
/// never called.
pub proof fn lemma_single_item<T>(items: Seq<T>, f: spec_fn(T, T) -> T)
    requires
        items.len() == 1,
    ensures
        run(Phase::AwaitingFirst, items, f) == (Some(items[0]), Seq::<(T, T)>::empty()),
{
    let rest = items.drop_first();
    assert(run(Phase::Holding(items[0]), rest, f) == (Some(items[0]), Seq::<(T, T)>::empty()));
}

/// From an accumulator `a`, the rest of a reduction folds `xs` into `a`,
/// with one merge call per item whose first argument is the fold so far.
proof fn lemma_run_holding<T>(a: T, xs: Seq<T>, f: spec_fn(T, T) -> T)
    ensures
        run(Phase::Holding(a), xs, f).0 == Some(xs.fold_left_alt(a, f)),
        run(Phase::Holding(a), xs, f).1.len() == xs.len(),
        forall|i: int|
            0 <= i < xs.len() ==> #[trigger] run(Phase::Holding(a), xs, f).1[i] == (
                xs.take(i).fold_left_alt(a, f),
                xs[i],
            ),
    decreases xs.len(),
{
    if xs.len() > 0 {
        let m = f(a, xs[0]);
        let rest = xs.drop_first();
        lemma_run_holding(m, rest, f);
        let calls = run(Phase::Holding(a), xs, f).1;
        assert(calls == seq![(a, xs[0])] + run(Phase::Holding(m), rest, f).1);
        assert forall|i: int| 0 <= i < xs.len() implies #[trigger] calls[i] == (
            xs.take(i).fold_left_alt(a, f),
            xs[i],
        ) by {
            if i > 0 {
                assert(xs.take(i).subrange(1, i) =~= rest.take(i - 1));
            } else {
                assert(xs.take(0).len() == 0);
            }
        }
    }
}

/// A source of two or more items reduces to the left fold of the merge
/// function over them, seeded with the first item. The merge function is
/// called once for each later item, in order, on the result of the call
/// before it (or on the first item) and that item.
pub proof fn lemma_left_fold<T>(items: Seq<T>, f: spec_fn(T, T) -> T)
    requires
        items.len() >= 2,
    ensures
        run(Phase::AwaitingFirst, items, f).0 == Some(items.drop_first().fold_left(items[0], f)),
        run(Phase::AwaitingFirst, items, f).1.len() == items.len() - 1,
        run(Phase::AwaitingFirst, items, f).1[0] == (items[0], items[1]),
        forall|i: int|
            0 < i < items.len() - 1 ==> #[trigger] run(Phase::AwaitingFirst, items, f).1[i] == (
                f(run(Phase::AwaitingFirst, items, f).1[i - 1].0, run(Phase::AwaitingFirst, items, f).1[i - 1].1),
                items[i + 1],
            ),
{
    let rest = items.drop_first();
    let calls = run(Phase::AwaitingFirst, items, f).1;
    lemma_run_holding(items[0], rest, f);
    rest.lemma_fold_left_alt(items[0], f);
    assert(calls == run(Phase::Holding(items[0]), rest, f).1);
    assert(rest.take(0).len() == 0);
    assert forall|i: int| 0 < i < items.len() - 1 implies #[trigger] calls[i] == (
        f(calls[i - 1].0, calls[i - 1].1),
        items[i + 1],
    ) by {
        assert(rest.take(i).drop_last() =~= rest.take(i - 1));
        rest.take(i).lemma_fold_left_alt(items[0], f);
        rest.take(i - 1).lemma_fold_left_alt(items[0], f);
    }
}

/// A suspension at any point of a reduction changes nothing: the phase it
/// ends in and the work it does (every merge call and the final result,
/// in order) are those of the same events without the suspension.
pub proof fn lemma_suspension_transparent<T>(p: Phase<T>, events: Seq<Event<T>>, i: int)
    requires
        0 <= i <= events.len(),
    ensures
        work(p, events.insert(i, Event::Pending)) == work(p, events),
    decreases i,
{
    let with = events.insert(i, Event::Pending);
    if i == 0 {
        assert(with.drop_first() =~= events);
    } else {
        let q = step(p, events[0]).0;
        lemma_suspension_transparent(q, events.drop_first(), i - 1);
        assert(with.drop_first() =~= events.drop_first().insert(i - 1, Event::Pending));
    }
}

/// A reduction ends exactly when it hands out its result, and once it has
/// ended it takes no further event.
pub proof fn lemma_finish_is_final<T>(p: Phase<T>, e: Event<T>)
    requires
        accepts(p, e),
    ensures
        (step(p, e).1 is Finish) == (step(p, e).0 is Done),
        forall|later: Event<T>| !#[trigger] accepts(Phase::<T>::Done, later),
{
}

} // verus!
