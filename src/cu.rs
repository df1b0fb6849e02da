//! Identifiers and flags of the first vendor's driver interface.
use vstd::prelude::*;
use crate::handle::Handle;

verus! {

/// A device ordinal assigned by the driver.
#[derive(Clone, Copy, Debug, PartialEq, Eq, Structural)]
pub struct Device(pub i32);

/// An execution context.
#[derive(Clone, Copy, Debug, PartialEq, Eq, Structural)]
pub struct Context(pub usize);

/// A loaded code module.
#[derive(Clone, Copy, Debug, PartialEq, Eq, Structural)]
pub struct Module(pub usize);

impl Handle for Device {
    open spec fn raw(&self) -> int {
        self.0 as int
    }

    open spec fn spec_null() -> Self {
        Device(0)
    }

    proof fn lemma_null_is_zero() {
    }

    fn null() -> (r: Self) {
        Device(0)
    }

    fn is_null(&self) -> (r: bool) {
        self.0 == 0
    }
}

impl Handle for Context {
    open spec fn raw(&self) -> int {
        self.0 as int
    }

    open spec fn spec_null() -> Self {
        Context(0)
    }

    proof fn lemma_null_is_zero() {
    }

    fn null() -> (r: Self) {
        Context(0)
    }

    fn is_null(&self) -> (r: bool) {
        self.0 == 0
    }
}

impl Handle for Module {
    open spec fn raw(&self) -> int {
        self.0 as int
    }

    open spec fn spec_null() -> Self {
        Module(0)
    }

    proof fn lemma_null_is_zero() {
    }

    fn null() -> (r: Self) {
        Module(0)
    }

    fn is_null(&self) -> (r: bool) {
        self.0 == 0
    }
}

/// The scheduling policy of a new execution context.
#[derive(Clone, Copy, Debug, PartialEq, Eq, Structural)]
pub enum CtxSchedFlag {
    Auto,
    Spin,
    Yield,
    BlockingSync,
}

impl CtxSchedFlag {
    /// The native value of the flag.
    pub open spec fn spec_value(self) -> u32 {
        match self {
            CtxSchedFlag::Auto => 0,
            CtxSchedFlag::Spin => 1,
            CtxSchedFlag::Yield => 2,
            CtxSchedFlag::BlockingSync => 4,
        }
    }

    pub fn value(&self) -> (r: u32)
        ensures
            r == self.spec_value(),
    {
        match self {
            CtxSchedFlag::Auto => 0,
            CtxSchedFlag::Spin => 1,
            CtxSchedFlag::Yield => 2,
            CtxSchedFlag::BlockingSync => 4,
        }
    }
}

/// An option of the just-in-time module loader; the native values follow the
/// order of declaration, starting at zero.
#[derive(Clone, Copy, Debug, PartialEq, Eq, Structural)]
pub enum JitOption {
    MaxRegisters,
    ThreadsPerBlock,
    WallTime,
    InfoLogBuffer,
    InfoLogBufferSizeBytes,
    ErrorLogBuffer,
    ErrorLogBufferSizeBytes,
    OptimizationLevel,
    TargetFromCucontext,
    Target,
    FallbackStrategy,
    GenerateDebugInfo,
    LogVerbose,
    GenerateLineInfo,
    CacheMode,
    NewSm3xOpt,
    FastCompile,
    GlobalSymbolNames,
    GlobalSymbolAddresses,
    GlobalSymbolCount,
    NumOptions,
}

impl JitOption {
    /// The native value of the option.
    pub open spec fn spec_value(self) -> u32 {
        match self {
            JitOption::MaxRegisters => 0,
            JitOption::ThreadsPerBlock => 1,
            JitOption::WallTime => 2,
            JitOption::InfoLogBuffer => 3,
            JitOption::InfoLogBufferSizeBytes => 4,
            JitOption::ErrorLogBuffer => 5,
            JitOption::ErrorLogBufferSizeBytes => 6,
            JitOption::OptimizationLevel => 7,
            JitOption::TargetFromCucontext => 8,
            JitOption::Target => 9,
            JitOption::FallbackStrategy => 10,
            JitOption::GenerateDebugInfo => 11,
            JitOption::LogVerbose => 12,
            JitOption::GenerateLineInfo => 13,
            JitOption::CacheMode => 14,
            JitOption::NewSm3xOpt => 15,
            JitOption::FastCompile => 16,
            JitOption::GlobalSymbolNames => 17,
            JitOption::GlobalSymbolAddresses => 18,
            JitOption::GlobalSymbolCount => 19,
            JitOption::NumOptions => 20,
        }
    }

    pub fn value(&self) -> (r: u32)
        ensures
            r == self.spec_value(),
    {
        match self {
            JitOption::MaxRegisters => 0,
            JitOption::ThreadsPerBlock => 1,
            JitOption::WallTime => 2,
            JitOption::InfoLogBuffer => 3,
            JitOption::InfoLogBufferSizeBytes => 4,
            JitOption::ErrorLogBuffer => 5,
            JitOption::ErrorLogBufferSizeBytes => 6,
            JitOption::OptimizationLevel => 7,
            JitOption::TargetFromCucontext => 8,
            JitOption::Target => 9,
            JitOption::FallbackStrategy => 10,
            JitOption::GenerateDebugInfo => 11,
            JitOption::LogVerbose => 12,
            JitOption::GenerateLineInfo => 13,
            JitOption::CacheMode => 14,
            JitOption::NewSm3xOpt => 15,
            JitOption::FastCompile => 16,
            JitOption::GlobalSymbolNames => 17,
            JitOption::GlobalSymbolAddresses => 18,
            JitOption::GlobalSymbolCount => 19,
            JitOption::NumOptions => 20,
        }
    }
}

} // verus!
