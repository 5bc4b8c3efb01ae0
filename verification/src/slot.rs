//! The storage that one try/catch works on.
//!
//! A try/catch owns one [`Slot`]. It holds the operation until the operation
//! is taken out to be run, and afterwards what came of it: the value that the
//! operation returned, or the exception that cut it short. At most one of
//! the three is there at a time, and the slot says which.

use vstd::prelude::*;
use crate::exception::Exception;
use crate::recovery::Recovery;

verus! {

/// The storage of one try/catch, for an operation of type `F` that returns
/// an `R`.
pub enum Slot<F, R> {
    /// The operation, not yet taken out.
    Pending(F),
    /// The operation was taken out and has not returned. Nothing is stored:
    /// an operation that a throw cuts short is gone, and leaves this behind.
    Running,
    /// The operation returned this value.
    Success(R),
    /// A throw cut the operation short. This is what was thrown, retained.
    Failure(Exception),
}

impl<F, R> Slot<F, R> {
    /// What the try/catch hands to its caller: nothing as long as the
    /// operation is pending or running.
    pub open spec fn outcome(self) -> Option<Result<R, Exception>> {
        match self {
            Slot::Success(value) => Some(Ok(value)),
            Slot::Failure(thrown) => Some(Err(thrown)),
            _ => None,
        }
    }

    /// Whether the operation's fate is stored.
    pub open spec fn settled(self) -> bool {
        self is Success || self is Failure
    }

    /// The slot after the landing pad stores what `recovery` hands out. It
    /// stores only into a slot whose operation is running, and only once
    /// the catch is closed; else the slot stays as it is.
    pub open spec fn caught(self, recovery: Recovery) -> Slot<F, R> {
        match (self, recovery.handed_out()) {
            (Slot::Running, Some(stable)) => Slot::Failure(stable),
            _ => self,
        }
    }

    /// Takes the operation out to be run, and leaves the slot `Running`.
    /// The operation can be taken once: any other slot gives `None` and
    /// stays as it is.
    pub fn take(&mut self) -> (operation: Option<F>)
        ensures
            *old(self) matches Slot::Pending(op) ==> operation == Some(op) && *final(self)
                == Slot::<F, R>::Running,
            !(*old(self) is Pending) ==> operation is None && *final(self) == *old(self),
    {
        let mut taken = Slot::Running;
        core::mem::swap(self, &mut taken);
        match taken {
            Slot::Pending(operation) => Some(operation),
            other => {
                *self = other;
                None
            },
        }
    }

    /// Stores what the operation returned. Only a slot whose operation is
    /// running takes it: any other slot stays as it is, and `value` comes
    /// back in `Err`.
    pub fn succeed(&mut self, value: R) -> (stored: Result<(), R>)
        ensures
            *old(self) is Running ==> stored is Ok && *final(self) == Slot::<F, R>::Success(value),
            !(*old(self) is Running) ==> stored == Err::<(), R>(value) && *final(self) == *old(
                self,
            ),
    {
        match &*self {
            Slot::Running => {
                *self = Slot::Success(value);
                Ok(())
            },
            _ => Err(value),
        }
    }

    /// The landing pad's last step: stores what `recovery` hands out as the
    /// failure of the try/catch. Returns whether it did: it stores only into
    /// a slot whose operation is running, and only once the catch is closed.
    /// A pending operation and a settled outcome are never overwritten.
    pub fn catch(&mut self, recovery: Recovery) -> (stored: bool)
        ensures
            *final(self) == old(self).caught(recovery),
            stored <==> *old(self) is Running && recovery.handed_out() is Some,
    {
        match (&*self, recovery.stable()) {
            (Slot::Running, Some(stable)) => {
                *self = Slot::Failure(stable);
                true
            },
            _ => false,
        }
    }

    /// Reads the slot out: `Ok` with the value that the operation returned,
    /// `Err` with the exception that cut it short, and `None` as long as
    /// neither is stored.
    pub fn into_outcome(self) -> (out: Option<Result<R, Exception>>)
        ensures
            out == self.outcome(),
    {
        match self {
            Slot::Success(value) => Some(Ok(value)),
            Slot::Failure(thrown) => Some(Err(thrown)),
            _ => None,
        }
    }
}

impl<F: FnOnce() -> R, R> Slot<F, R> {
    /// A slot that holds `operation`, ready to be run.
    pub fn new(operation: F) -> (slot: Self)
        ensures
            slot == Slot::<F, R>::Pending(operation),
    {
        Slot::Pending(operation)
    }

    /// The normal path of a try/catch: takes the operation out, runs it, and
    /// stores what it returned. The outcome is then `Ok` with a value that
    /// the operation returns when it is called directly.
    ///
    /// The operation runs once: a slot that is not pending stays as it is.
    /// While the operation runs the slot is `Running`, and so the landing pad
    /// finds it if a throw cuts the operation short.
    pub fn call(&mut self)
        requires
            *old(self) matches Slot::Pending(op) ==> op.requires(()),
        ensures
            *old(self) matches Slot::Pending(op) ==> (*final(self) matches Slot::Success(value)
                && op.ensures((), value) && final(self).outcome() == Some(
                Ok::<R, Exception>(value),
            )),
            !(*old(self) is Pending) ==> *final(self) == *old(self),
    {
        match self.take() {
            Some(operation) => {
                let value = operation();
                let _ = self.succeed(value);
            },
            None => {},
        }
    }
}

/// A try/catch has two outcomes and no third: there is an outcome exactly
/// when the slot is settled, it is `Ok` exactly for a success and `Err`
/// exactly for a failure, and it holds what the slot holds.
pub proof fn law_two_outcomes<F, R>(slot: Slot<F, R>)
    ensures
        slot.outcome() is Some <==> slot.settled(),
        slot matches Slot::Success(value) ==> slot.outcome() == Some(
            Ok::<R, Exception>(value),
        ),
        slot matches Slot::Failure(thrown) ==> slot.outcome() == Some(
            Err::<R, Exception>(thrown),
        ),
        slot.outcome() matches Some(Ok(_)) ==> slot is Success,
        slot.outcome() matches Some(Err(_)) ==> slot is Failure,
{
}

/// Storing a failure loses nothing: it changes the slot only where the
/// operation is running and the catch is closed, so neither an operation
/// that was never run nor a settled outcome is overwritten.
pub proof fn law_nothing_lost<F, R>(slot: Slot<F, R>, recovery: Recovery)
    ensures
        slot.caught(recovery) != slot <==> slot is Running && recovery.handed_out() is Some,
        slot is Pending || slot.settled() ==> slot.caught(recovery) == slot,
        slot.caught(recovery).outcome() is Some ==> slot.settled() || recovery.handed_out()
            is Some,
{
}

/// A throw of the reference to no object is a failure like any other. Where
/// begin-catch returns `Null` and retain hands it back, the try/catch ends in
/// `Err(Null)`, which no operation that returned can end in.
pub proof fn law_null_is_failure<F, R>(payload: usize)
    ensures
        ({
            let closed = (Recovery::Landed { payload }).run(
                seq![
                    crate::recovery::Reply::Caught { transient: Exception::Null },
                    crate::recovery::Reply::Retained { stable: Exception::Null },
                    crate::recovery::Reply::Ended,
                ],
            );
            let slot = Slot::<F, R>::Running.caught(closed);
            &&& slot.outcome() == Some(Err::<R, Exception>(Exception::Null))
            &&& forall|value: R| slot.outcome() != Some(Ok::<R, Exception>(value))
        }),
{
    crate::recovery::law_round_trip(payload, Exception::Null);
}

} // verus!
