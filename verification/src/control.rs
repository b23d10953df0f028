//! Control flow for continuing or halting stack walking.

use vstd::prelude::*;

verus! {

/// Whether to continue unwinding or stop.
#[derive(Clone, Copy, Debug, PartialEq, Eq, Structural)]
pub enum StackWalkControl {
    /// Continue unwinding.
    Continue,
    /// Stop unwinding.
    Break,
}

/// A trait for types that can be interpreted as a `StackWalkControl`.
///
/// A callback handed to a walk returns such a value after each frame. A value
/// with no opinion, such as `()`, lets the walk continue; a `Result` halts it
/// with its first `Err`; a `StackWalkControl` says which it wants.
pub trait AsStackWalkControl {
    /// What this value asks of the walk, for the contracts of this crate to
    /// speak of. An implementation that is not verified writes it as an
    /// ordinary function that returns what `as_stack_walk_control` returns.
    spec fn control(&self) -> StackWalkControl;

    /// Interpret this value as a `StackWalkControl`.
    fn as_stack_walk_control(&self) -> (c: StackWalkControl)
        ensures
            c == self.control(),
    ;
}

impl AsStackWalkControl for StackWalkControl {
    open spec fn control(&self) -> StackWalkControl {
        *self
    }

    fn as_stack_walk_control(&self) -> (c: StackWalkControl) {
        *self
    }
}

impl AsStackWalkControl for () {
    open spec fn control(&self) -> StackWalkControl {
        StackWalkControl::Continue
    }

    fn as_stack_walk_control(&self) -> (c: StackWalkControl) {
        StackWalkControl::Continue
    }
}

impl<T, E> AsStackWalkControl for Result<T, E> {
    open spec fn control(&self) -> StackWalkControl {
        match self {
            Ok(_) => StackWalkControl::Continue,
            Err(_) => StackWalkControl::Break,
        }
    }

    fn as_stack_walk_control(&self) -> (c: StackWalkControl) {
        if self.is_ok() {
            StackWalkControl::Continue
        } else {
            StackWalkControl::Break
        }
    }
}

} // verus!
