//! Trusted contracts for the outside synchronization primitives the cell is
//! built on: the single-assignment slot (`std::sync::OnceLock`) and the
//! broadcast wakeup gate (`event_listener::Event`).
//!
//! Both primitives are shared and mutated behind `&self`, so their state is
//! invisible to the verifier; the contracts below state only what holds of a
//! single call whatever the concurrent history was. What the cell as a whole
//! guarantees over histories is stated and proved in [`crate::model`].

use vstd::prelude::*;
use event_listener::Listener;

verus! {

#[verifier::external_type_specification]
#[verifier::external_body]
#[verifier::reject_recursive_types(T)]
pub struct ExOnceLock<T>(std::sync::OnceLock<T>);

#[verifier::external_type_specification]
#[verifier::external_body]
#[verifier::reject_recursive_types(T)]
pub struct ExEvent<T>(event_listener::Event<T>);

#[verifier::external_type_specification]
#[verifier::external_body]
#[verifier::reject_recursive_types(T)]
pub struct ExEventListener<T>(event_listener::EventListener<T>);

/// Relies on `std::sync::OnceLock::new`: creates an empty slot.
pub assume_specification<T>[ std::sync::OnceLock::<T>::new ]() -> (r: std::sync::OnceLock<T>);

/// Relies on `std::sync::OnceLock::set`: atomically stores the value if the
/// slot was still empty, and otherwise leaves the slot untouched and hands the
/// caller's own value back unchanged in the error.
pub assume_specification<T>[ std::sync::OnceLock::<T>::set ](
    lock: &std::sync::OnceLock<T>,
    value: T,
) -> (r: Result<(), T>)
    ensures
        r matches Err(rejected) ==> rejected == value,
;

/// Relies on `std::sync::OnceLock::get`: returns the stored value if the slot
/// is populated, and signals absence otherwise, without ever blocking.
pub assume_specification<T>[ std::sync::OnceLock::<T>::get ](
    lock: &std::sync::OnceLock<T>,
) -> (r: Option<&T>);

/// Relies on `std::sync::OnceLock::wait`: blocks the calling thread until the
/// slot is populated, then returns the stored value.
pub assume_specification<T>[ std::sync::OnceLock::<T>::wait ](
    lock: &std::sync::OnceLock<T>,
) -> (r: &T);

/// Relies on `event_listener::Event::new`: creates an event with no
/// registered listeners.
#[verifier::external_body]
pub(crate) fn event_new() -> (r: event_listener::Event<()>) {
    event_listener::Event::new()
}

/// Relies on `event_listener::Event::listen`: registers a new listener with
/// the event. A broadcast issued from this moment on reaches it; one issued
/// before it registered is not replayed to it, which is why readers must
/// register before checking the slot.
#[verifier::external_body]
pub(crate) fn event_listen(event: &event_listener::Event<()>) -> (r: event_listener::EventListener<()>) {
    event.listen()
}

/// Relies on `event_listener::Event::notify_additional`: wakes every listener
/// registered at this moment, each receiving its own notification, none
/// coalesced with another.
#[verifier::external_body]
pub(crate) fn event_notify_all(event: &event_listener::Event<()>) {
    event.notify_additional(usize::MAX);
}

/// Relies on `event_listener::EventListener::wait`: blocks the calling thread
/// until the listener receives a notification, and consumes the listener.
#[verifier::external_body]
pub(crate) fn listener_wait(listener: event_listener::EventListener<()>) {
    listener.wait();
}

} // verus!
