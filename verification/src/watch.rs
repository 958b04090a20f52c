//! The write-once cell and its suspending read protocol.

use vstd::prelude::*;
use crate::sync_specs::{event_listen, event_new, event_notify_all, listener_wait};

verus! {

/// One round of the suspending read protocol, with the listener registered
/// strictly before the slot was checked.
pub enum GetStep<'a, T> {
    /// The slot was already populated: the reader is done without suspending.
    Ready(&'a T),
    /// The slot was still empty when checked. Because the listener inside was
    /// registered before that check, the winning writer's broadcast cannot
    /// fall between the check and the registration: waiting on the listener
    /// cannot miss it.
    Pending(event_listener::EventListener<()>),
}

/// The shareable container whose value is set at most once.
///
/// The cell starts empty; concurrent writers race through one atomic
/// compare-and-set, so exactly one `set` succeeds and the stored value never
/// changes afterwards. Readers poll with `try_get` or wait with `get`. The
/// slot and the wakeup gate are shared behind `&self`, so the contracts here
/// state what holds of each call in every concurrent history; the laws over
/// whole histories are proved in [`crate::model`].
#[verifier::reject_recursive_types(T)]
pub struct OnceWatch<T> where T: Sync {
    /// The broadcast wakeup gate: the winning writer notifies it exactly
    /// once, right after the slot is populated; a reader that intends to
    /// wait registers with it before re-checking the slot.
    event: event_listener::Event<()>,
    /// The single-assignment slot; its compare-and-set is the one atomic
    /// decision point that picks the winning writer.
    slot: std::sync::OnceLock<T>,
}

impl<T> OnceWatch<T> where T: Sync {
    /// Creates a new, empty instance.
    pub fn new() -> (r: Self) {
        OnceWatch { event: event_new(), slot: std::sync::OnceLock::new() }
    }

    /// Attempts to populate the cell with `data`.
    ///
    /// The slot's compare-and-set decides: the first caller to reach an empty
    /// slot wins, stores its value permanently, and broadcasts the wakeup;
    /// every other caller — earlier losers and all later callers alike — is
    /// handed its own payload back unchanged, and the stored value is left
    /// untouched. The broadcast is issued only after the store is visible,
    /// so a woken reader never observes an empty slot.
    pub fn set(&self, data: T) -> (r: Result<(), T>)
        ensures
            r is Err ==> r == Err::<(), T>(data),
    {
        match self.slot.set(data) {
            Ok(()) => {
                event_notify_all(&self.event);
                Ok(())
            },
            Err(rejected) => Err(rejected),
        }
    }

    /// One round of the suspending read: registers interest in the wakeup
    /// gate and only after that checks the slot.
    ///
    /// This order is the load-bearing half of the no-lost-wakeup argument: a
    /// writer that publishes after the check finds the listener already
    /// registered, so its broadcast reaches the reader. On [`GetStep::Ready`]
    /// the registration is simply discarded. Callers that cannot block drive
    /// this step from their own scheduler and suspend on the listener.
    pub fn get_step(&self) -> (r: GetStep<'_, T>) {
        let listener = event_listen(&self.event);
        match self.slot.get() {
            Some(value) => GetStep::Ready(value),
            None => GetStep::Pending(listener),
        }
    }

    /// Waits until the cell is populated and returns the stored value.
    ///
    /// If the value is already present the call returns at once, without
    /// suspending. Otherwise the calling thread suspends on the wakeup gate;
    /// the winning writer broadcasts only after its store, so once woken the
    /// slot is populated, and the final read of the slot returns without
    /// waiting. That last step blocks on the slot itself rather than
    /// unwrapping an option: that the re-read cannot find the slot empty is a
    /// concurrency argument over the whole history, which no contract of a
    /// single call carries, and the read stays total without it.
    pub fn get(&self) -> (r: &T) {
        match self.get_step() {
            GetStep::Ready(value) => value,
            GetStep::Pending(listener) => {
                listener_wait(listener);
                self.slot.wait()
            },
        }
    }

    /// Polls the cell without ever suspending: the stored value if the cell
    /// is populated, and absence otherwise.
    pub fn try_get(&self) -> (r: Option<&T>) {
        self.slot.get()
    }
}

impl<T> Default for OnceWatch<T> where T: Sync {
    /// Creates a new, empty instance, exactly as [`OnceWatch::new`] does.
    fn default() -> Self {
        Self::new()
    }
}

} // verus!
