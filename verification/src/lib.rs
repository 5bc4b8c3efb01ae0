//! The values and decisions of a bridge between a foreign object runtime's
//! exceptions and ordinary results.
//!
//! A foreign throw unwinds the stack; a try/catch around an operation turns
//! that into a value. Calling into the runtime and installing the landing
//! pad need the platform. Everything that is decided along the way is here:
//! what a thrown object is to the bridge ([`Exception`]), the storage that
//! one try/catch works on ([`Slot`]), and the order of the runtime calls that
//! take a thrown object out of an unwind and make it safe to hand to the
//! caller ([`Recovery`]).

pub mod exception;
pub mod recovery;
pub mod slot;

pub use exception::Exception;
pub use recovery::{Action, Recovery, Reply};
pub use slot::Slot;
