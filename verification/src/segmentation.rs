//! What repeated steps make of a whole text.
//!
//! The laws here follow an iteration whose source has the same encoding
//! `units` at every step. `state_after(units, n)` is the state that `n` steps
//! leave, and `yield_at(units, n)` what the step after them yields.

use vstd::prelude::*;
use crate::code_point::is_pair_at;
use crate::code_point::is_surrogate;
use crate::iterator::step;
use crate::iterator::IterationState;

verus! {

/// The state of an iteration over `units` after `steps` steps from its start.
pub open spec fn state_after(units: Seq<u16>, steps: nat) -> IterationState
    decreases steps,
{
    if steps == 0 {
        IterationState::Active(0)
    } else {
        step(state_after(units, (steps - 1) as nat), units).0
    }
}

/// What the step that follows the first `steps` steps yields.
pub open spec fn yield_at(units: Seq<u16>, steps: nat) -> Option<Seq<u16>> {
    step(state_after(units, steps), units).1
}

/// Once a step has yielded nothing, the iterator is exhausted, and a further
/// step yields nothing and leaves it exhausted, whatever encoding either step
/// is given.
pub proof fn lemma_done_is_final(state: IterationState, units: Seq<u16>, later: Seq<u16>)
    requires
        step(state, units).1 is None,
    ensures
        step(state, units).0 is Exhausted,
        step(step(state, units).0, later) == (IterationState::Exhausted, None::<Seq<u16>>),
{
}

/// An iteration that is exhausted after some number of steps is exhausted
/// after any larger number, and yields nothing from then on.
pub proof fn lemma_exhausted_forever(units: Seq<u16>, steps: nat, later: nat)
    requires
        state_after(units, steps) is Exhausted,
        steps <= later,
    ensures
        state_after(units, later) is Exhausted,
        yield_at(units, later) is None,
    decreases later,
{
    if steps < later {
        lemma_exhausted_forever(units, steps, (later - 1) as nat);
    }
}

/// The first step over an empty text yields nothing and exhausts the
/// iterator.
pub proof fn lemma_empty_text_is_done_at_once(units: Seq<u16>)
    requires
        units.len() == 0,
    ensures
        yield_at(units, 0) is None,
        state_after(units, 1) is Exhausted,
{
    reveal_with_fuel(state_after, 2);
}

/// In a text without a surrogate pair, the first `steps` steps move the
/// cursor over one code unit each.
proof fn lemma_single_units_cursor(units: Seq<u16>, steps: nat)
    requires
        forall|i: int| !is_pair_at(units, i),
        steps <= units.len(),
    ensures
        state_after(units, steps) == IterationState::Active(steps),
    decreases steps,
{
    if steps > 0 {
        lemma_single_units_cursor(units, (steps - 1) as nat);
        assert(!is_pair_at(units, steps - 1));
    }
}

/// In a text without a surrogate pair, where every code point lies in the
/// Basic Multilingual Plane, the steps yield the code units one by one in
/// their order, each as a value of its own. The step after the last code unit
/// yields nothing, and so does every step after that.
pub proof fn lemma_bmp_text_yields_each_unit(units: Seq<u16>)
    requires
        forall|i: int| !is_pair_at(units, i),
    ensures
        forall|n: nat|
            n < units.len() ==> #[trigger] yield_at(units, n) == Some(seq![units[n as int]])
                && state_after(units, n) == IterationState::Active(n),
        forall|n: nat| n >= units.len() ==> #[trigger] yield_at(units, n) is None,
        forall|n: nat| n > units.len() ==> #[trigger] state_after(units, n) is Exhausted,
{
    let len = units.len();
    lemma_single_units_cursor(units, len);
    assert(state_after(units, len + 1) is Exhausted);
    assert forall|n: nat| n < len implies #[trigger] yield_at(units, n) == Some(
        seq![units[n as int]],
    ) && state_after(units, n) == IterationState::Active(n) by {
        lemma_single_units_cursor(units, n);
        assert(!is_pair_at(units, n as int));
        assert(units.subrange(n as int, n as int + 1) =~= seq![units[n as int]]);
    }
    assert forall|n: nat| n > len implies #[trigger] state_after(units, n) is Exhausted by {
        lemma_exhausted_forever(units, len + 1, n);
    }
    assert forall|n: nat| n >= len implies #[trigger] yield_at(units, n) is None by {
        if n > len {
            lemma_exhausted_forever(units, len + 1, n);
        }
    }
}

/// The cursor never stands between the two halves of a surrogate pair.
pub proof fn lemma_pair_never_split(units: Seq<u16>, index: int, steps: nat)
    requires
        is_pair_at(units, index),
    ensures
        state_after(units, steps) != IterationState::Active((index + 1) as nat),
    decreases steps,
{
    if steps > 0 {
        lemma_pair_never_split(units, index, (steps - 1) as nat);
    }
}

/// Every position up to the end of the text that is not the second half of a
/// surrogate pair is the cursor after some number of steps, which is returned.
pub proof fn lemma_cursor_reaches(units: Seq<u16>, index: int) -> (steps: nat)
    requires
        0 <= index <= units.len(),
        !is_pair_at(units, index - 1),
    ensures
        state_after(units, steps) == IterationState::Active(index as nat),
    decreases index,
{
    if index == 0 {
        0
    } else if is_pair_at(units, index - 2) {
        let before = lemma_cursor_reaches(units, index - 2);
        before + 1
    } else {
        let before = lemma_cursor_reaches(units, index - 1);
        before + 1
    }
}

/// A surrogate pair is yielded whole: some step finds the cursor at its
/// leading surrogate, yields both code units as one value and moves the cursor
/// behind them. The number of steps before that step is returned.
pub proof fn lemma_pair_yielded_whole(units: Seq<u16>, index: int) -> (steps: nat)
    requires
        is_pair_at(units, index),
    ensures
        state_after(units, steps) == IterationState::Active(index as nat),
        yield_at(units, steps) == Some(seq![units[index], units[index + 1]]),
        state_after(units, steps + 1) == IterationState::Active((index + 2) as nat),
{
    let steps = lemma_cursor_reaches(units, index);
    assert(units.subrange(index, index + 2) =~= seq![units[index], units[index + 1]]);
    steps
}

/// A surrogate without its partner is yielded alone: some step finds the
/// cursor at it, yields this one code unit as a value and moves the cursor by
/// one. The number of steps before that step is returned.
pub proof fn lemma_lone_surrogate_yielded_alone(units: Seq<u16>, index: int) -> (steps: nat)
    requires
        0 <= index < units.len(),
        is_surrogate(units[index]),
        !is_pair_at(units, index),
        !is_pair_at(units, index - 1),
    ensures
        state_after(units, steps) == IterationState::Active(index as nat),
        yield_at(units, steps) == Some(seq![units[index]]),
        state_after(units, steps + 1) == IterationState::Active((index + 1) as nat),
{
    let steps = lemma_cursor_reaches(units, index);
    assert(units.subrange(index, index + 1) =~= seq![units[index]]);
    steps
}

} // verus!
