use stream_reduce::{Action, Event, Reducer, Target};

/// Runs a reduction over `items` with a merge that resolves at once. With
/// `stall` set, every poll first suspends once before it succeeds. Returns
/// the result and the arguments of each merge call.
fn drive<M: FnMut(u8, u8) -> u8>(items: Vec<u8>, mut merge: M, stall: bool) -> (Option<u8>, Vec<(u8, u8)>) {
    let mut reducer = Reducer::new();
    let mut source = items.into_iter();
    let mut task: Option<u8> = None;
    let mut calls = Vec::new();
    let mut stalled = false;
    loop {
        assert!(!reducer.is_done());
        let event = if stall && !stalled {
            stalled = true;
            Event::Pending
        } else {
            stalled = false;
            match reducer.target() {
                Target::Source => match source.next() {
                    Some(x) => Event::Item(x),
                    None => Event::Exhausted,
                },
                Target::MergeTask => Event::Merged(task.take().unwrap()),
            }
        };
        match reducer.resume(event) {
            Action::Suspend | Action::Continue => {}
            Action::Merge(accum, item) => {
                calls.push((accum, item));
                task = Some(merge(accum, item));
            }
            Action::Finish(result) => {
                assert!(reducer.is_done());
                return (result, calls);
            }
        }
    }
}

fn sum(v: Vec<u8>) -> Option<u8> {
    drive(v, |a, b| a + b, false).0
}

#[test]
fn test_reduce_some() {
    let v = vec![1, 2, 3, 4, 5];
    assert_eq!(Some(15), sum(v));
}

#[test]
fn test_reduce_one() {
    let v = vec![1];
    assert_eq!(Some(1), sum(v));
}

#[test]
fn test_reduce_none() {
    let v = Vec::new();
    assert_eq!(None, sum(v));
}

#[test]
fn empty_product_is_none_without_merging() {
    let (result, calls) = drive(Vec::new(), |a, b| a * b, false);
    assert_eq!(result, None);
    assert!(calls.is_empty());
}

#[test]
fn single_item_is_returned_without_merging() {
    let (result, calls) = drive(vec![7], |_, _| panic!("merge called"), false);
    assert_eq!(result, Some(7));
    assert!(calls.is_empty());
}

#[test]
fn product_accumulates_left_to_right() {
    let (result, calls) = drive(vec![2, 3, 4], |a, b| a * b, false);
    assert_eq!(calls, vec![(2, 3), (6, 4)]);
    assert_eq!(result, Some(24));
}

#[test]
fn merge_runs_once_per_later_item_on_previous_output() {
    let (result, calls) = drive(vec![1, 2, 3, 4, 5], |a, b| a + b, false);
    assert_eq!(calls, vec![(1, 2), (3, 3), (6, 4), (10, 5)]);
    assert_eq!(result, Some(15));
}

#[test]
fn merge_order_is_source_order() {
    let (result, _) = drive(vec![1, 2, 3], |a, b| a * 10 + b, false);
    assert_eq!(result, Some(123));
}

#[test]
fn suspensions_lose_and_repeat_nothing() {
    for items in [vec![], vec![7], vec![2, 3, 4], vec![1, 2, 3, 4, 5]] {
        let plain = drive(items.clone(), |a, b| a * 10 + b, false);
        let stalled = drive(items, |a, b| a * 10 + b, true);
        assert_eq!(plain, stalled);
    }
}

#[test]
fn pending_leaves_the_phase_alone() {
    let mut reducer = Reducer::new();
    assert_eq!(reducer.resume(Event::Pending), Action::Suspend);
    assert_eq!(reducer.target(), Target::Source);
    assert_eq!(reducer.resume(Event::Item(2u8)), Action::Continue);
    assert_eq!(reducer.resume(Event::Pending), Action::Suspend);
    assert_eq!(reducer.target(), Target::Source);
    assert_eq!(reducer.resume(Event::Item(3)), Action::Merge(2, 3));
    assert_eq!(reducer.target(), Target::MergeTask);
    assert_eq!(reducer.resume(Event::Pending), Action::Suspend);
    assert_eq!(reducer.target(), Target::MergeTask);
    assert_eq!(reducer.resume(Event::Merged(6)), Action::Continue);
    assert_eq!(reducer.target(), Target::Source);
    assert!(!reducer.is_done());
    assert_eq!(reducer.resume(Event::Exhausted), Action::Finish(Some(6)));
    assert!(reducer.is_done());
}

#[test]
fn new_reducer_waits_on_the_source() {
    let reducer: Reducer<u8> = Reducer::new();
    assert!(!reducer.is_done());
    assert_eq!(reducer.target(), Target::Source);
}
