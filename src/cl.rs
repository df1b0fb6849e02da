//! Identifiers of the second vendor's driver interface.
use vstd::prelude::*;
use crate::handle::Handle;

verus! {

/// A platform (one installed driver implementation).
#[derive(Clone, Copy, Debug, PartialEq, Eq, Structural)]
pub struct PlatformId(pub usize);

/// A device of a platform.
#[derive(Clone, Copy, Debug, PartialEq, Eq, Structural)]
pub struct DeviceId(pub usize);

/// A context spanning one or more devices.
#[derive(Clone, Copy, Debug, PartialEq, Eq, Structural)]
pub struct Context(pub usize);

/// A command queue bound to a context and a device.
#[derive(Clone, Copy, Debug, PartialEq, Eq, Structural)]
pub struct CommandQueue(pub usize);

impl Handle for PlatformId {
    open spec fn raw(&self) -> int {
        self.0 as int
    }

    open spec fn spec_null() -> Self {
        PlatformId(0)
    }

    proof fn lemma_null_is_zero() {
    }

    fn null() -> (r: Self) {
        PlatformId(0)
    }

    fn is_null(&self) -> (r: bool) {
        self.0 == 0
    }
}

impl Handle for DeviceId {
    open spec fn raw(&self) -> int {
        self.0 as int
    }

    open spec fn spec_null() -> Self {
        DeviceId(0)
    }

    proof fn lemma_null_is_zero() {
    }

    fn null() -> (r: Self) {
        DeviceId(0)
    }

    fn is_null(&self) -> (r: bool) {
        self.0 == 0
    }
}

impl Handle for Context {
    open spec fn raw(&self) -> int {
        self.0 as int
    }

    open spec fn spec_null() -> Self {
        Context(0)
    }

    proof fn lemma_null_is_zero() {
    }

    fn null() -> (r: Self) {
        Context(0)
    }

    fn is_null(&self) -> (r: bool) {
        self.0 == 0
    }
}

impl Handle for CommandQueue {
    open spec fn raw(&self) -> int {
        self.0 as int
    }

    open spec fn spec_null() -> Self {
        CommandQueue(0)
    }

    proof fn lemma_null_is_zero() {
    }

    fn null() -> (r: Self) {
        CommandQueue(0)
    }

    fn is_null(&self) -> (r: bool) {
        self.0 == 0
    }
}

} // verus!
