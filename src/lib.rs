//! A seedless asynchronous fold, reduced to its decisions.
//!
//! A reduction drives two kinds of suspendable work: asking a source for
//! its next item, and waiting for a merge task to resolve. The first item
//! seeds the accumulator; every later item is merged into it, one merge at a
//! time and in the order the source produced them. [`Reducer`] is the state
//! machine that makes every decision of that protocol: a driver performs the
//! poll that [`Reducer::target`] names, hands the outcome back as an
//! [`Event`], and carries out the [`Action`] that [`Reducer::resume`] returns.
mod laws;
mod reducer;

pub use laws::{
    lemma_empty_source, lemma_finish_is_final, lemma_left_fold, lemma_single_item,
    lemma_suspension_transparent, run, work,
};
pub use reducer::{accepts, step, target_of, Action, Event, Phase, Reducer, Target};
