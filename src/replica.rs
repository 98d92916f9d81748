//! The local value of a reader, and what applying a run of messages does to it.
use vstd::prelude::*;

verus! {

/// A value that can be changed by one message of type `M`.
///
/// `after` says, as a mathematical function, what one message does to the
/// value; `take_message` is the executable step, which must agree with it.
pub trait TakesMessage<M>: Sized {
    /// The value that results from applying `m` to `self`.
    spec fn after(self, m: M) -> Self;

    /// Applies one message to the value in place.
    fn take_message(&mut self, t: &M)
        ensures
            *final(self) == old(self).after(*t),
    ;
}

/// The value `s` with every message of `msgs` applied to it, first to last.
pub open spec fn apply_all<T: TakesMessage<M>, M>(s: T, msgs: Seq<M>) -> T
    decreases msgs.len(),
{
    if msgs.len() == 0 {
        s
    } else {
        apply_all(s, msgs.drop_last()).after(msgs.last())
    }
}

/// Applying one more message at the end of a run is one more step.
pub proof fn lemma_apply_all_push<T: TakesMessage<M>, M>(s: T, msgs: Seq<M>, m: M)
    ensures
        apply_all(s, msgs.push(m)) == apply_all(s, msgs).after(m),
{
    assert(msgs.push(m).drop_last() =~= msgs);
}

/// Applying two runs of messages one after the other gives the same value as
/// applying their concatenation in one go: synchronising in several batches
/// ends where a single synchronisation over the same messages ends.
pub proof fn lemma_apply_all_concat<T: TakesMessage<M>, M>(s: T, a: Seq<M>, b: Seq<M>)
    ensures
        apply_all(apply_all(s, a), b) == apply_all(s, a + b),
    decreases b.len(),
{
    if b.len() == 0 {
        assert(a + b =~= a);
    } else {
        lemma_apply_all_concat(s, a, b.drop_last());
        assert((a + b).drop_last() =~= a + b.drop_last());
        assert((a + b).last() == b.last());
    }
}

} // verus!
