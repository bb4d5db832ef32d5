//! A guard that cancels a fetch in flight.
//!
//! The guard holds the sending half of at most one cancellation channel.
//! It never signals a channel itself: each operation hands back the channel
//! that the host must signal, once and without minding a failure, and that
//! channel is no longer held.

use vstd::prelude::*;

verus! {

/// What can be done to a guard. `S` is the sending half of a channel.
pub enum Operation<S> {
    /// Arm the guard with the sending half of a fresh channel.
    Initialize(S),
    /// Cancel the fetch, if one is in flight.
    Cancel,
    /// Forget the fetch without cancelling it.
    Ignore,
    /// The guard goes away.
    Teardown,
}

/// The channel that the guard holds after an operation.
pub open spec fn armed_after<S>(armed: Option<S>, op: Operation<S>) -> Option<S> {
    match op {
        Operation::Initialize(sender) => Some(sender),
        _ => None,
    }
}

/// The channel that is to be signalled on an operation: the one held
/// before, unless the fetch is only forgotten.
pub open spec fn to_signal<S>(armed: Option<S>, op: Operation<S>) -> Option<S> {
    match op {
        Operation::Ignore => None,
        _ => armed,
    }
}

/// The guard.
pub struct FetchCanceller<S> {
    cancel_chan: Option<S>,
}

impl<S> FetchCanceller<S> {
    /// The channel that the guard holds, if it is armed.
    pub closed spec fn armed(&self) -> Option<S> {
        self.cancel_chan
    }

    /// Creates a guard that holds no channel.
    pub fn new() -> (guard: Self)
        ensures
            guard.armed() is None,
    {
        FetchCanceller { cancel_chan: None }
    }

    /// Arms the guard with `sender`, the sending half of a fresh channel
    /// whose receiving half goes to the fetch. Returns the channel of the
    /// fetch that was in flight before, which must now be signalled.
    pub fn initialize(&mut self, sender: S) -> (cancelled: Option<S>)
        ensures
            cancelled == to_signal(old(self).armed(), Operation::Initialize(sender)),
            final(self).armed() == armed_after(old(self).armed(), Operation::Initialize(sender)),
    {
        let cancelled = self.cancel();
        self.cancel_chan = Some(sender);
        cancelled
    }

    /// Disarms the guard. Returns the channel that must now be signalled,
    /// if the guard was armed.
    pub fn cancel(&mut self) -> (cancelled: Option<S>)
        ensures
            cancelled == to_signal(old(self).armed(), Operation::<S>::Cancel),
            final(self).armed() == armed_after(old(self).armed(), Operation::<S>::Cancel),
    {
        self.cancel_chan.take()
    }

    /// Disarms the guard without a signal: the fetch has come to its end.
    pub fn ignore(&mut self)
        ensures
            final(self).armed() == armed_after(old(self).armed(), Operation::<S>::Ignore),
    {
        let _ = self.cancel_chan.take();
    }

    /// Ends the guard's life. Returns the channel that must now be
    /// signalled, if the guard was still armed.
    pub fn teardown(self) -> (cancelled: Option<S>)
        ensures
            cancelled == to_signal(self.armed(), Operation::<S>::Teardown),
    {
        let mut guard = self;
        guard.cancel()
    }
}

/// Arming a guard twice signals exactly one channel, the first, and it
/// does so when the second is armed: arming the idle guard signals nothing,
/// and after the second arming the guard holds the second channel.
pub proof fn law_rearming_cancels_the_first<S>(first: S, second: S)
    ensures
        to_signal(None::<S>, Operation::Initialize(first)) is None,
        to_signal(
            armed_after(None::<S>, Operation::Initialize(first)),
            Operation::Initialize(second),
        ) == Some(first),
        armed_after(
            armed_after(None::<S>, Operation::Initialize(first)),
            Operation::Initialize(second),
        ) == Some(second),
{
}

/// A guard that was told to forget its fetch signals nothing when it goes
/// away.
pub proof fn law_ignored_guard_goes_silently<S>(armed: Option<S>)
    ensures
        to_signal(armed, Operation::<S>::Ignore) is None,
        to_signal(armed_after(armed, Operation::<S>::Ignore), Operation::<S>::Teardown) is None,
{
}

/// A guard that goes away armed signals its channel, and only that one.
pub proof fn law_armed_guard_cancels_on_teardown<S>(sender: S)
    ensures
        to_signal(
            armed_after(None::<S>, Operation::Initialize(sender)),
            Operation::<S>::Teardown,
        ) == Some(sender),
{
}

/// No channel is signalled twice: the channel that an operation has
/// signalled is not held afterwards unless the same operation armed it
/// anew, and an idle guard signals nothing.
pub proof fn law_no_second_signal<S>(armed: Option<S>, op: Operation<S>, then: Operation<S>)
    ensures
        !(op is Initialize) ==> armed_after(armed, op) is None && to_signal(
            armed_after(armed, op),
            then,
        ) is None,
        armed is None ==> to_signal(armed, op) is None,
{
}

} // verus!
