//! `TcReader`: one cursor into the channel paired with a locally owned value,
//! to which the messages taken from the cursor are applied on request.
use bus::BusReader;
use vstd::prelude::*;
use crate::channel::bus_try_recv;
use crate::replica::TakesMessage;
use crate::replica::apply_all;
use crate::replica::lemma_apply_all_concat;
use crate::replica::lemma_apply_all_push;

verus! {

/// A reader keeps its local value and applies incoming messages to it only
/// when asked to, by `update` and its variants.
///
/// The accessors say whether they synchronise first (`peek_fresh`,
/// `into_fresh`) or not (`peek_stale`, `into_inner`, and `*reader`), so that
/// a missing synchronisation is never silent.
#[verifier::reject_recursive_types(M)]
pub struct TcReader<T, M> where T: TakesMessage<M> {
    data: T,
    consumer: BusReader<M>,
    /// The value the reader was registered with.
    seed: Ghost<T>,
    /// Every message taken from the cursor since registration, in order.
    consumed: Ghost<Seq<M>>,
}

impl<T, M> TcReader<T, M> where T: TakesMessage<M> {
    /// The local value as it stands.
    pub closed spec fn state(&self) -> T {
        self.data
    }

    /// The value the reader was registered with.
    pub closed spec fn seed(&self) -> T {
        self.seed@
    }

    /// The messages taken from the channel since registration, in order.
    pub closed spec fn consumed(&self) -> Seq<M> {
        self.consumed@
    }

    /// The local value is the seed with every consumed message applied once,
    /// in the order in which they were consumed.
    pub open spec fn is_replica(&self) -> bool {
        self.state() == apply_all(self.seed(), self.consumed())
    }

    /// `self` is `earlier` after taking `msgs` from the channel, in order, and
    /// applying each of them to the local value.
    pub open spec fn took(&self, earlier: &Self, msgs: Seq<M>) -> bool {
        &&& self.consumed() == earlier.consumed() + msgs
        &&& self.state() == apply_all(earlier.state(), msgs)
        &&& self.seed() == earlier.seed()
    }

    /// The messages that `self` has consumed since `earlier`.
    pub open spec fn consumed_since(&self, earlier: &Self) -> Seq<M> {
        self.consumed().skip(earlier.consumed().len() as int)
    }
}

/// A reader that only ever took messages stays a replica of its seed: its
/// value is the seed folded over everything it has consumed, however the
/// messages were split into batches.
pub proof fn lemma_took_keeps_replica<T: TakesMessage<M>, M>(
    earlier: &TcReader<T, M>,
    later: &TcReader<T, M>,
    msgs: Seq<M>,
)
    requires
        earlier.is_replica(),
        later.took(earlier, msgs),
    ensures
        later.is_replica(),
{
    lemma_apply_all_concat(earlier.seed(), earlier.consumed(), msgs);
}

/// Two synchronisations in a row amount to one that took both runs of
/// messages, in order: updating in limited batches ends in the same state as
/// one update over the same messages.
pub proof fn lemma_took_twice<T: TakesMessage<M>, M>(
    first: &TcReader<T, M>,
    second: &TcReader<T, M>,
    third: &TcReader<T, M>,
    a: Seq<M>,
    b: Seq<M>,
)
    requires
        second.took(first, a),
        third.took(second, b),
    ensures
        third.took(first, a + b),
{
    lemma_apply_all_concat(first.state(), a, b);
    assert(first.consumed() + a + b =~= first.consumed() + (a + b));
}

impl<T, M> TcReader<T, M> where T: TakesMessage<M>, M: Sync + Clone {
    /// A reader of `consumer` whose local value starts as `init`.
    pub(crate) fn attach(init: T, consumer: BusReader<M>) -> (r: Self)
        ensures
            r.state() == init,
            r.seed() == init,
            r.consumed() == Seq::<M>::empty(),
            r.is_replica(),
    {
        let ghost seed = init;
        TcReader { data: init, consumer, seed: Ghost(seed), consumed: Ghost(Seq::empty()) }
    }

    /// Applies one message to the local value and records it as consumed.
    #[inline]
    fn apply_given(&mut self, msg: &M)
        ensures
            final(self).took(old(self), seq![*msg]),
    {
        self.data.take_message(msg);
        self.consumed = Ghost(self.consumed@.push(*msg));
        proof {
            lemma_apply_all_push(old(self).state(), Seq::<M>::empty(), *msg);
            assert(seq![*msg] =~= Seq::<M>::empty().push(*msg));
            assert(old(self).consumed() + seq![*msg] =~= old(self).consumed().push(*msg));
        }
    }

    /// Takes the messages waiting for this reader, at most `limit` of them,
    /// applies each to the local value in order, and returns them in that
    /// order.
    pub fn update_return_limited(&mut self, limit: usize) -> (v: Vec<M>)
        ensures
            v@.len() <= limit,
            final(self).took(old(self), v@),
            old(self).is_replica() ==> final(self).is_replica(),
    {
        let mut v: Vec<M> = Vec::new();
        proof {
            assert(old(self).consumed() + v@ =~= old(self).consumed());
        }
        while v.len() < limit
            invariant
                v@.len() <= limit,
                self.took(old(self), v@),
            decreases limit - v@.len(),
        {
            match bus_try_recv(&mut self.consumer) {
                Some(msg) => {
                    let ghost before = *self;
                    self.apply_given(&msg);
                    proof {
                        lemma_apply_all_concat(old(self).state(), v@, seq![msg]);
                        assert(v@ + seq![msg] =~= v@.push(msg));
                        assert(old(self).consumed() + v@.push(msg) =~= before.consumed() + seq![msg]);
                    }
                    v.push(msg);
                },
                None => {
                    break;
                },
            }
        }
        proof {
            if old(self).is_replica() {
                lemma_took_keeps_replica(old(self), self, v@);
            }
        }
        v
    }

    /// Takes every message waiting for this reader (up to `usize::MAX` of
    /// them in one call), applies each to the local value in order, and
    /// returns them in that order.
    pub fn update_return(&mut self) -> (v: Vec<M>)
        ensures
            final(self).took(old(self), v@),
            old(self).is_replica() ==> final(self).is_replica(),
    {
        self.update_return_limited(usize::MAX)
    }

    /// Takes the messages waiting for this reader, at most `limit` of them,
    /// applies each to the local value in order, and returns how many there
    /// were.
    pub fn update_limited(&mut self, limit: usize) -> (count: usize)
        ensures
            count <= limit,
            final(self).consumed().len() == old(self).consumed().len() + count,
            final(self).took(old(self), final(self).consumed_since(old(self))),
            old(self).is_replica() ==> final(self).is_replica(),
    {
        let mut count: usize = 0;
        let ghost mut taken = Seq::<M>::empty();
        proof {
            assert(old(self).consumed() + taken =~= old(self).consumed());
        }
        while count < limit
            invariant
                count <= limit,
                taken.len() == count,
                self.took(old(self), taken),
            decreases limit - count,
        {
            match bus_try_recv(&mut self.consumer) {
                Some(msg) => {
                    let ghost before = *self;
                    self.apply_given(&msg);
                    proof {
                        lemma_apply_all_concat(old(self).state(), taken, seq![msg]);
                        assert(taken + seq![msg] =~= taken.push(msg));
                        assert(old(self).consumed() + taken.push(msg) =~= before.consumed() + seq![msg]);
                        taken = taken.push(msg);
                    }
                    count = count + 1;
                },
                None => {
                    break;
                },
            }
        }
        proof {
            assert(self.consumed_since(old(self)) =~= taken);
            if old(self).is_replica() {
                lemma_took_keeps_replica(old(self), self, taken);
            }
        }
        count
    }

    /// Takes every message waiting for this reader (up to `usize::MAX` of
    /// them in one call), applies each to the local value in order, and
    /// returns how many there were.
    pub fn update(&mut self) -> (count: usize)
        ensures
            final(self).consumed().len() == old(self).consumed().len() + count,
            final(self).took(old(self), final(self).consumed_since(old(self))),
            old(self).is_replica() ==> final(self).is_replica(),
    {
        self.update_limited(usize::MAX)
    }

    /// Consumes the reader and returns its local value as it stands, without
    /// applying the messages still waiting.
    pub fn into_inner(self) -> (r: T)
        ensures
            r == self.state(),
    {
        self.data
    }

    /// Consumes the reader and returns its local value after applying every
    /// message waiting for it.
    pub fn into_fresh(self) -> (r: T)
        ensures
            exists|msgs: Seq<M>|
                {
                    &&& r == apply_all(self.state(), msgs)
                    &&& self.is_replica() ==> r == apply_all(self.seed(), self.consumed() + msgs)
                },
    {
        let mut me = self;
        me.update();
        proof {
            if self.is_replica() {
                lemma_apply_all_concat(self.seed(), self.consumed(), me.consumed_since(&self));
            }
        }
        me.data
    }

    /// The local value as it stands, without applying waiting messages.
    pub fn peek_stale(&self) -> (r: &T)
        ensures
            *r == self.state(),
    {
        &self.data
    }

    /// The local value after applying every message waiting for this reader.
    pub fn peek_fresh(&mut self) -> (r: &T)
        ensures
            final(self).took(old(self), final(self).consumed_since(old(self))),
            *r == final(self).state(),
    {
        self.update();
        &self.data
    }
}

impl<T, M> std::ops::Deref for TcReader<T, M> where T: TakesMessage<M> {
    type Target = T;

    /// The local value as it stands, without applying waiting messages.
    fn deref(&self) -> (r: &T)
        ensures
            *r == self.state(),
    {
        &self.data
    }
}

impl<T, M> std::ops::DerefMut for TcReader<T, M> where T: TakesMessage<M> {
    /// Direct access to the local value. Whatever is written through it
    /// becomes the local value, so the reader is no longer bound to be a
    /// replica of its seed afterwards.
    fn deref_mut(&mut self) -> (r: &mut T)
        ensures
            *r == old(self).state(),
            final(self).state() == *final(r),
            final(self).seed() == old(self).seed(),
            final(self).consumed() == old(self).consumed(),
    {
        &mut self.data
    }
}

} // verus!
