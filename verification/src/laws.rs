//! What holds of a packed array over any number of calls: it stores what a
//! plain sequence of integers would store, however the elements lie across
//! the words of the buffer.
//!
//! A run of calls is given by the arrays that it went through: `states[0]` is
//! the array before the first call and `states[k + 1]` the array that call
//! `k` made of `states[k]`, as the contract of `push` or of `set` relates the
//! two.

use vstd::prelude::*;
use crate::packed_element::PackedElement;
use crate::packed_vec::PackedVec;

verus! {

/// One change to an array.
pub enum Edit {
    /// `push(value)`.
    Append(u32),
    /// `set(index, value)`.
    Replace(usize, u32),
}

/// What an edit makes of a plain sequence.
pub open spec fn apply_edit(elements: Seq<u32>, edit: Edit) -> Seq<u32> {
    match edit {
        Edit::Append(value) => elements.push(value),
        Edit::Replace(index, value) => elements.update(index as int, value),
    }
}

/// What the edits, made in order, make of the empty sequence.
pub open spec fn apply_edits(edits: Seq<Edit>) -> Seq<u32>
    decreases edits.len(),
{
    if edits.len() == 0 {
        Seq::empty()
    } else {
        apply_edit(apply_edits(edits.drop_last()), edits.last())
    }
}

/// The number of `Append` edits among `edits`.
pub open spec fn count_pushes(edits: Seq<Edit>) -> nat
    decreases edits.len(),
{
    if edits.len() == 0 {
        0
    } else if edits.last() is Append {
        count_pushes(edits.drop_last()) + 1
    } else {
        count_pushes(edits.drop_last())
    }
}

/// Whether `after` is what the call that `edit` stands for makes of `before`.
/// A `Replace` stands for a call of `set`, so its index is below the length.
pub open spec fn edited<T: PackedElement>(
    before: &PackedVec<T>,
    edit: Edit,
    after: &PackedVec<T>,
) -> bool {
    match edit {
        Edit::Append(value) => before.pushed(value, after),
        Edit::Replace(index, value) => index < before.len() && before.rewritten(
            index as int,
            value,
            after,
        ),
    }
}

/// Whether `states` are the arrays that a run of `edits` goes through, from
/// an empty array such as `new` gives.
pub open spec fn is_run<T: PackedElement>(states: Seq<PackedVec<T>>, edits: Seq<Edit>) -> bool {
    &&& states.len() == edits.len() + 1
    &&& states[0].len() == 0
    &&& states[0].slack_is_zero()
    &&& forall|k: int|
        0 <= k < edits.len() ==> edited(&states[k], #[trigger] edits[k], &states[k + 1])
}

/// Pushing `values` one after another onto an empty array gives an array
/// whose elements are exactly `values`: `get(i)` then returns `values[i]`.
pub proof fn law_push_round_trip<T: PackedElement>(states: Seq<PackedVec<T>>, values: Seq<u32>)
    requires
        states.len() == values.len() + 1,
        states[0].len() == 0,
        states[0].slack_is_zero(),
        forall|k: int|
            0 <= k < values.len() ==> states[k].pushed(#[trigger] values[k], &states[k + 1]),
    ensures
        states.last()@ == values,
        states.last().len() == values.len(),
        states.last().slack_is_zero(),
    decreases values.len(),
{
    if values.len() == 0 {
        assert(states.last()@ =~= values);
    } else {
        let earlier = states.drop_last();
        let shorter = values.drop_last();
        assert forall|k: int| 0 <= k < shorter.len() implies earlier[k].pushed(
            #[trigger] shorter[k],
            &earlier[k + 1],
        ) by {
            assert(states[k].pushed(values[k], &states[k + 1]));
        }
        law_push_round_trip(earlier, shorter);
        let k = values.len() - 1;
        assert(states[k].pushed(values[k], &states[k + 1]));
        states[k].lemma_pushed_elements(values[k], &states[k + 1]);
        assert(states.last()@ =~= values);
    }
}

/// After any run of pushes and sets the elements are what the same edits make
/// of a plain sequence. So an element holds the value last put there, and no
/// bit of an element before or after it, whether or not it lies across two
/// words.
pub proof fn law_edits_match_sequence<T: PackedElement>(
    states: Seq<PackedVec<T>>,
    edits: Seq<Edit>,
)
    requires
        is_run(states, edits),
    ensures
        states.last()@ == apply_edits(edits),
        states.last().slack_is_zero(),
    decreases edits.len(),
{
    if edits.len() == 0 {
        assert(states.last()@ =~= apply_edits(edits));
    } else {
        let earlier = states.drop_last();
        let shorter = edits.drop_last();
        assert forall|k: int| 0 <= k < shorter.len() implies edited(
            &earlier[k],
            #[trigger] shorter[k],
            &earlier[k + 1],
        ) by {
            assert(edited(&states[k], edits[k], &states[k + 1]));
        }
        law_edits_match_sequence(earlier, shorter);
        let k = edits.len() - 1;
        assert(edited(&states[k], edits[k], &states[k + 1]));
        match edits[k] {
            Edit::Append(value) => {
                states[k].lemma_pushed_elements(value, &states[k + 1]);
            },
            Edit::Replace(index, value) => {
                states[k].lemma_rewritten_elements(index as int, value, &states[k + 1]);
            },
        }
    }
}

/// After any run of pushes and sets the length is the number of pushes: a
/// push adds one to it and a set leaves it as it is.
pub proof fn law_len_counts_pushes<T: PackedElement>(states: Seq<PackedVec<T>>, edits: Seq<Edit>)
    requires
        is_run(states, edits),
    ensures
        states.last().len() == count_pushes(edits),
    decreases edits.len(),
{
    if edits.len() > 0 {
        let earlier = states.drop_last();
        let shorter = edits.drop_last();
        assert forall|k: int| 0 <= k < shorter.len() implies edited(
            &earlier[k],
            #[trigger] shorter[k],
            &earlier[k + 1],
        ) by {
            assert(edited(&states[k], edits[k], &states[k + 1]));
        }
        law_len_counts_pushes(earlier, shorter);
        let k = edits.len() - 1;
        assert(edited(&states[k], edits[k], &states[k + 1]));
    }
}

} // verus!
