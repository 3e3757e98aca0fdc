//! Laws that hold of the node's operations across any number of calls.
//!
//! The operations' own contracts are stated over the spec functions of
//! [`crate::node`]; the lemmas here state what those functions guarantee
//! over whole histories of calls.

use vstd::prelude::*;

use crate::node::accepted;
use crate::node::committed;
use crate::node::slice_write;

verus! {

/// Contents of a node of capacity `cap` after the given sequence of
/// `write_slice` inputs, oldest first, starting from an empty node.
pub open spec fn filled<W>(cap: nat, inputs: Seq<Seq<W>>) -> Seq<W>
    decreases inputs.len(),
{
    if inputs.len() == 0 {
        Seq::<W>::empty()
    } else {
        slice_write(cap, filled(cap, inputs.drop_last()), inputs.last())
    }
}

/// Sum of the counts that the same calls accepted.
pub open spec fn total_accepted<W>(cap: nat, inputs: Seq<Seq<W>>) -> int
    decreases inputs.len(),
{
    if inputs.len() == 0 {
        0int
    } else {
        total_accepted(cap, inputs.drop_last()) + accepted(
            cap,
            filled(cap, inputs.drop_last()),
            inputs.last(),
        )
    }
}

/// Law: over any sequence of `write_slice` calls on an initially empty
/// node, the length after each call equals the sum of the accepted counts
/// so far, and that total never exceeds the capacity.
pub proof fn lemma_write_slice_totals<W>(cap: nat, inputs: Seq<Seq<W>>)
    ensures
        filled(cap, inputs).len() == total_accepted(cap, inputs),
        total_accepted(cap, inputs) <= cap,
    decreases inputs.len(),
{
    if inputs.len() > 0 {
        lemma_write_slice_totals(cap, inputs.drop_last());
    }
}

/// Law: `commit` only ever shrinks or preserves the contents, and with a
/// target at or beyond the current length it changes nothing at all.
pub proof fn lemma_commit_never_grows<W>(contents: Seq<W>, shrink_to: nat)
    ensures
        committed(contents, shrink_to).len() <= contents.len(),
        shrink_to >= contents.len() ==> committed(contents, shrink_to) == contents,
{
}

/// Law: committing `k` elements keeps exactly the first `k` of them, each
/// unchanged. After `write` the contents have full-capacity length, so
/// every `k` up to the capacity qualifies, and the read view then shows,
/// at each position below `k`, exactly what was written there.
pub proof fn lemma_commit_keeps_prefix<W>(contents: Seq<W>, k: nat)
    requires
        k <= contents.len(),
    ensures
        committed(contents, k).len() == k,
        forall|i: int| 0 <= i < k ==> committed(contents, k)[i] == contents[i],
{
}

} // verus!
