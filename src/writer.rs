//! `TcWriter`: a cloneable handle onto one channel, through which messages are
//! published and readers are registered.
use vstd::prelude::*;
use crate::channel::SharedBus;
use crate::channel::bus_add_rx;
use crate::channel::bus_broadcast;
use crate::channel::bus_try_broadcast;
use crate::channel::open_bus;
use crate::reader::TcReader;
use crate::replica::TakesMessage;

verus! {

/// Why a channel could not be built.
#[derive(Debug, Clone, Copy, PartialEq, Eq, Structural)]
pub enum ConfigError {
    /// A channel of capacity zero could never hold a message for a reader.
    ZeroCapacity,
}

/// A handle onto a channel that any number of readers listen on. Clones share
/// the channel and may publish concurrently; every reader sees the messages of
/// all of them in one order.
#[verifier::reject_recursive_types(M)]
pub struct TcWriter<M> where M: Sync + Clone {
    producer: SharedBus<M>,
    capacity: usize,
}

impl<M> TcWriter<M> where M: Sync + Clone {
    /// How many messages a reader may fall behind before publishing waits (or,
    /// for `try_apply_change`, fails).
    pub closed spec fn spec_capacity(&self) -> usize {
        self.capacity
    }

    /// A writer onto a new channel that holds up to `capacity` messages that
    /// some reader has not yet taken. Fails on a capacity of zero.
    pub fn new(capacity: usize) -> (r: Result<Self, ConfigError>)
        requires
            capacity < usize::MAX,
        ensures
            capacity == 0 <==> r is Err,
            r matches Err(e) ==> e == ConfigError::ZeroCapacity,
            r matches Ok(w) ==> w.spec_capacity() == capacity,
    {
        if capacity == 0 {
            return Err(ConfigError::ZeroCapacity);
        }
        Ok(TcWriter { producer: open_bus(capacity), capacity })
    }

    /// The capacity the channel was built with.
    pub fn capacity(&self) -> (r: usize)
        ensures
            r == self.spec_capacity(),
    {
        self.capacity
    }

    /// Publishes `m` to every registered reader, waiting while the slowest of
    /// them is `capacity` messages behind.
    pub fn apply_change(&self, m: M) {
        bus_broadcast(&self.producer, m)
    }

    /// Publishes `m` to every registered reader if the channel has room, and
    /// otherwise hands `m` back unchanged without waiting.
    pub fn try_apply_change(&self, m: M) -> (r: Result<(), M>)
        ensures
            r matches Err(back) ==> back == m,
    {
        if let Err(m) = bus_try_broadcast(&self.producer, m) {
            Err(m)
        } else {
            Ok(())
        }
    }

    /// Registers a new reader whose local value starts as `init`. It sees only
    /// the messages published after it was registered.
    pub fn add_reader<T: TakesMessage<M>>(&self, init: T) -> (r: TcReader<T, M>)
        ensures
            r.state() == init,
            r.seed() == init,
            r.consumed() == Seq::<M>::empty(),
            r.is_replica(),
    {
        TcReader::attach(init, bus_add_rx(&self.producer))
    }
}

impl<M> Clone for TcWriter<M> where M: Sync + Clone {
    /// Another handle onto the same channel.
    fn clone(&self) -> (r: Self)
        ensures
            r.spec_capacity() == self.spec_capacity(),
    {
        TcWriter { producer: self.producer.clone(), capacity: self.capacity }
    }

    /// Makes this handle one onto the channel of `source`.
    fn clone_from(&mut self, source: &Self)
        ensures
            final(self).spec_capacity() == source.spec_capacity(),
    {
        self.producer = source.producer.clone();
        self.capacity = source.capacity;
    }
}

} // verus!
