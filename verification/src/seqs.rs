//! Facts about sequences shared by the modules.
use vstd::prelude::*;

verus! {

/// Filtering a sequence extended by one element filters the prefix and keeps
/// the new element when it passes.
pub proof fn lemma_filter_push<A>(s: Seq<A>, a: A, pred: spec_fn(A) -> bool)
    ensures
        s.push(a).filter(pred) == (if pred(a) {
            s.filter(pred).push(a)
        } else {
            s.filter(pred)
        }),
{
    reveal_with_fuel(Seq::<_>::filter, 1);
    assert(s.push(a).drop_last() =~= s);
}

/// The prefix of length `i + 1` extends the prefix of length `i` by `s[i]`.
pub proof fn lemma_take_push<A>(s: Seq<A>, i: int)
    requires
        0 <= i < s.len(),
    ensures
        s.take(i + 1) == s.take(i).push(s[i]),
{
    assert(s.take(i + 1) =~= s.take(i).push(s[i]));
}

} // verus!
