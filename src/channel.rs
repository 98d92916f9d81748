//! The shared broadcast channel: a `bus::Bus` behind a mutex, and the calls
//! into the `bus` crate that writers and readers make.
//!
//! The channel is shared between threads, so what one of these calls returns
//! depends on what other threads did before it. Each contract below states
//! only what holds whatever the other threads did.
use std::sync::Arc;
use std::sync::Mutex;
use bus::Bus;
use bus::BusReader;
use vstd::prelude::*;

verus! {

#[verifier::external_type_specification]
#[verifier::external_body]
#[verifier::reject_recursive_types(T)]
pub struct ExBus<T>(Bus<T>);

#[verifier::external_type_specification]
#[verifier::external_body]
#[verifier::reject_recursive_types(T)]
pub struct ExBusReader<T>(BusReader<T>);

#[verifier::external_type_specification]
#[verifier::external_body]
#[verifier::reject_recursive_types(T)]
pub struct ExMutex<T: ?Sized>(Mutex<T>);

/// The handle that all writers of one channel share.
pub type SharedBus<M> = Arc<Mutex<Bus<M>>>;

/// Relies on `bus::Bus::new`: a ring of `capacity + 1` seats, one of them kept
/// free, so that `capacity` messages fit before a reader must catch up. The
/// seat count is computed as `capacity + 1`, hence the bound.
#[verifier::external_body]
pub(crate) fn open_bus<M>(capacity: usize) -> SharedBus<M>
    requires
        capacity < usize::MAX,
{
    Arc::new(Mutex::new(Bus::new(capacity)))
}

/// Relies on `bus::Bus::broadcast`: waits until the slowest registered reader
/// leaves room, then places the message on the bus.
#[verifier::external_body]
pub(crate) fn bus_broadcast<M>(producer: &SharedBus<M>, m: M) {
    producer.lock().unwrap().broadcast(m)
}

/// Relies on `bus::Bus::try_broadcast`: places the message on the bus if there
/// is room, and otherwise hands the same message back at once.
#[verifier::external_body]
pub(crate) fn bus_try_broadcast<M>(producer: &SharedBus<M>, m: M) -> (r: Result<(), M>)
    ensures
        r matches Err(back) ==> back == m,
{
    producer.lock().unwrap().try_broadcast(m)
}

/// Relies on `bus::Bus::add_rx`: a new cursor at the current tail of the bus,
/// which receives only what is broadcast after it.
#[verifier::external_body]
pub(crate) fn bus_add_rx<M>(producer: &SharedBus<M>) -> BusReader<M> {
    producer.lock().unwrap().add_rx()
}

/// Relies on `bus::BusReader::try_recv`: the next message waiting for this
/// cursor, if there is one, without blocking; `None` when nothing is waiting
/// or the bus is gone.
#[verifier::external_body]
pub(crate) fn bus_try_recv<M: Clone + Sync>(consumer: &mut BusReader<M>) -> Option<M> {
    consumer.try_recv().ok()
}

} // verus!
