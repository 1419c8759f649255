//! Facts about the hysteron's transition, proved over its model.
use vstd::prelude::*;

use crate::hysteron::HysteronView;

verus! {

/// An observation keeps a well-formed state well-formed.
pub proof fn lemma_next_preserves_wf(s: HysteronView, temp: int)
    requires
        s.wf(),
    ensures
        s.next(temp).0.wf(),
        s.next(temp).0.offset == s.offset,
{
}

/// A rise above the reference always passes through: the output is the
/// input, the input becomes the reference, and the cutoff is set `offset`
/// below it.
pub proof fn lemma_rise_passes_through(s: HysteronView, temp: int)
    requires
        temp > s.beta,
    ensures
        s.next(temp) == (HysteronView { offset: s.offset, beta: temp, alpha: Some(temp - s.offset) }, temp),
{
}

/// Observing exactly the reference changes no state and returns the input.
pub proof fn lemma_stable_at_reference(s: HysteronView, temp: int)
    requires
        temp == s.beta,
    ensures
        s.next(temp) == (s, temp),
{
}

/// With an offset of 0 or 1 there is no hold zone: from any well-formed
/// state, every sequence of inputs comes back unchanged as the outputs.
pub proof fn lemma_small_offset_is_identity(s: HysteronView, temps: Seq<int>)
    requires
        s.wf(),
        s.offset <= 1,
    ensures
        s.outputs(temps) == temps,
    decreases temps.len(),
{
    if temps.len() > 0 {
        let (t, out) = s.next(temps[0]);
        lemma_next_preserves_wf(s, temps[0]);
        lemma_small_offset_is_identity(t, temps.drop_first());
        assert(out == temps[0]);
        assert(s.outputs(temps) =~= temps);
    }
}

} // verus!
