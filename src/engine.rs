//! Execution contexts: how an [`Engine`] is created for a device, and how it
//! is torn down.
use vstd::prelude::*;
use crate::backend::{err, Call, Device, Error, ErrorKind, NativeDevice, ReplyView, Reply, SUCCESS};
use crate::{cl, cu};

verus! {

/// The native objects that an engine owns.
#[derive(Clone, Copy, Debug, PartialEq, Eq, Structural)]
pub enum EngineNative {
    /// A first-vendor execution context.
    Cuda(cu::Context),
    /// A second-vendor context and the command queue created against it.
    OpenCl(cl::Context, cl::CommandQueue),
}

/// An execution context created for a device.
#[derive(Debug, PartialEq, Eq)]
pub struct Engine {
    pub native: EngineNative,
}

/// The native calls that tear an engine down, in order: a queue is released
/// before the context it depends on.
pub open spec fn teardown_calls(e: Engine) -> Seq<Call> {
    match e.native {
        EngineNative::Cuda(c) => seq![Call::CuCtxDestroy(c)],
        EngineNative::OpenCl(c, q) => seq![Call::ClReleaseCommandQueue(q), Call::ClReleaseContext(c)],
    }
}

impl Engine {
    /// The native calls to perform, once and in this order, when the engine's
    /// owner gives it up.
    pub fn teardown(&self) -> (r: Vec<Call>)
        ensures
            r@ == teardown_calls(*self),
    {
        match self.native {
            EngineNative::Cuda(c) => vec![Call::CuCtxDestroy(c)],
            EngineNative::OpenCl(c, q) => vec![Call::ClReleaseCommandQueue(q), Call::ClReleaseContext(c)],
        }
    }
}

/// Where an engine creation stands.
#[derive(Clone, Copy, Debug, PartialEq, Eq, Structural)]
pub enum BuildPhase {
    Start,
    /// Waiting for the first-vendor context.
    CudaContext,
    /// Waiting for the second-vendor context.
    ClContext,
    /// Waiting for the command queue of the given context.
    ClQueue(cl::Context),
    /// Waiting for the given context to be released after a failed queue.
    ClRelease(cl::Context),
    Done,
}

/// What an engine creation asks for, or ends with, after one step.
#[derive(Debug, PartialEq, Eq)]
pub enum BuildAction {
    /// Perform this native call and report its outcome.
    Call(Call),
    /// The engine was created.
    Built(Engine),
    /// The creation failed; nothing native was left behind.
    Failed(Error),
    /// The creation ended at an earlier step.
    Over,
}

/// The creation of one engine for one device.
pub struct EngineBuild {
    pub device: Device,
    pub phase: BuildPhase,
}

pub open spec fn build_start(device: Device) -> EngineBuild {
    EngineBuild { device, phase: BuildPhase::Start }
}

pub open spec fn build_step(s: EngineBuild, r: ReplyView) -> (EngineBuild, BuildAction) {
    let done = EngineBuild { phase: BuildPhase::Done, ..s };
    match s.phase {
        BuildPhase::Start => match s.device.native {
            NativeDevice::Cuda(d) => (
                EngineBuild { phase: BuildPhase::CudaContext, ..s },
                BuildAction::Call(Call::CuCtxCreate(cu::CtxSchedFlag::Auto, d)),
            ),
            NativeDevice::OpenCl(id) => (
                EngineBuild { phase: BuildPhase::ClContext, ..s },
                BuildAction::Call(Call::ClCreateContext(id)),
            ),
        },
        BuildPhase::CudaContext => match (r, s.device.native) {
            (ReplyView::CudaContext(st, c), _) => if st == SUCCESS {
                (done, BuildAction::Built(Engine { native: EngineNative::Cuda(c) }))
            } else {
                (done, BuildAction::Failed(err(ErrorKind::UnableToCreateCudaContext)))
            },
            (_, NativeDevice::Cuda(d)) => (s, BuildAction::Call(Call::CuCtxCreate(cu::CtxSchedFlag::Auto, d))),
            (_, NativeDevice::OpenCl(_)) => (done, BuildAction::Over),
        },
        BuildPhase::ClContext => match (r, s.device.native) {
            (ReplyView::ClContext(st, c), NativeDevice::OpenCl(id)) => if st == SUCCESS {
                (EngineBuild { phase: BuildPhase::ClQueue(c), ..s }, BuildAction::Call(Call::ClCreateCommandQueue(c, id)))
            } else {
                (done, BuildAction::Failed(err(ErrorKind::UnableToCreateOpenClContext)))
            },
            (_, NativeDevice::OpenCl(id)) => (s, BuildAction::Call(Call::ClCreateContext(id))),
            (_, NativeDevice::Cuda(_)) => (done, BuildAction::Over),
        },
        BuildPhase::ClQueue(c) => match (r, s.device.native) {
            (ReplyView::Queue(st, q), _) => if st == SUCCESS {
                (done, BuildAction::Built(Engine { native: EngineNative::OpenCl(c, q) }))
            } else {
                (EngineBuild { phase: BuildPhase::ClRelease(c), ..s }, BuildAction::Call(Call::ClReleaseContext(c)))
            },
            (_, NativeDevice::OpenCl(id)) => (s, BuildAction::Call(Call::ClCreateCommandQueue(c, id))),
            (_, NativeDevice::Cuda(_)) => (done, BuildAction::Over),
        },
        BuildPhase::ClRelease(_) => (done, BuildAction::Failed(err(ErrorKind::UnableToCreateOpenClContext))),
        BuildPhase::Done => (s, BuildAction::Over),
    }
}

/// A second-vendor engine is created by exactly one context creation for the
/// device followed by exactly one queue creation against that context, after
/// which no native call is asked for; it is torn down by one queue release
/// strictly before one context release.  A failed queue creation releases the
/// context before the failure is reported.
pub proof fn lemma_opencl_engine_calls(
    id: cl::DeviceId,
    c: cl::Context,
    q: cl::CommandQueue,
    status: i32,
    r: ReplyView,
    r2: ReplyView,
)
    requires
        status != SUCCESS,
    ensures
        ({
            let s0 = build_start(Device { native: NativeDevice::OpenCl(id) });
            let (s1, a1) = build_step(s0, ReplyView::Pull);
            let (s2, a2) = build_step(s1, ReplyView::ClContext(SUCCESS, c));
            let (s3, a3) = build_step(s2, ReplyView::Queue(SUCCESS, q));
            let e = Engine { native: EngineNative::OpenCl(c, q) };
            &&& a1 == BuildAction::Call(Call::ClCreateContext(id))
            &&& a2 == BuildAction::Call(Call::ClCreateCommandQueue(c, id))
            &&& a3 == BuildAction::Built(e)
            &&& !(build_step(s3, r).1 is Call)
            &&& teardown_calls(e) == seq![Call::ClReleaseCommandQueue(q), Call::ClReleaseContext(c)]
            &&& {
                let (f3, b3) = build_step(s2, ReplyView::Queue(status, q));
                let (f4, b4) = build_step(f3, r);
                &&& b3 == BuildAction::Call(Call::ClReleaseContext(c))
                &&& b4 == BuildAction::Failed(err(ErrorKind::UnableToCreateOpenClContext))
                &&& !(build_step(f4, r2).1 is Call)
            }
        }),
{
}

impl Device {
    /// Starts creating an execution context for the device.
    pub fn create_engine(&self) -> (r: EngineBuild)
        ensures
            r == build_start(*self),
    {
        EngineBuild { device: *self, phase: BuildPhase::Start }
    }
}

impl EngineBuild {
    /// Advances the creation by one step, given the outcome of the native call
    /// that it last asked for (or [`Reply::Pull`]).
    pub fn step(&mut self, reply: Reply) -> (a: BuildAction)
        ensures
            (*final(self), a) == build_step(*old(self), reply@),
    {
        let native = self.device.native;
        match self.phase {
            BuildPhase::Start => match native {
                NativeDevice::Cuda(d) => {
                    self.phase = BuildPhase::CudaContext;
                    BuildAction::Call(Call::CuCtxCreate(cu::CtxSchedFlag::Auto, d))
                },
                NativeDevice::OpenCl(id) => {
                    self.phase = BuildPhase::ClContext;
                    BuildAction::Call(Call::ClCreateContext(id))
                },
            },
            BuildPhase::CudaContext => match (reply, native) {
                (Reply::CudaContext(st, c), _) => {
                    self.phase = BuildPhase::Done;
                    if st == SUCCESS {
                        BuildAction::Built(Engine { native: EngineNative::Cuda(c) })
                    } else {
                        BuildAction::Failed(Error { kind: ErrorKind::UnableToCreateCudaContext })
                    }
                },
                (_, NativeDevice::Cuda(d)) => BuildAction::Call(Call::CuCtxCreate(cu::CtxSchedFlag::Auto, d)),
                (_, NativeDevice::OpenCl(_)) => {
                    self.phase = BuildPhase::Done;
                    BuildAction::Over
                },
            },
            BuildPhase::ClContext => match (reply, native) {
                (Reply::ClContext(st, c), NativeDevice::OpenCl(id)) => if st == SUCCESS {
                    self.phase = BuildPhase::ClQueue(c);
                    BuildAction::Call(Call::ClCreateCommandQueue(c, id))
                } else {
                    self.phase = BuildPhase::Done;
                    BuildAction::Failed(Error { kind: ErrorKind::UnableToCreateOpenClContext })
                },
                (_, NativeDevice::OpenCl(id)) => BuildAction::Call(Call::ClCreateContext(id)),
                (_, NativeDevice::Cuda(_)) => {
                    self.phase = BuildPhase::Done;
                    BuildAction::Over
                },
            },
            BuildPhase::ClQueue(c) => match (reply, native) {
                (Reply::Queue(st, q), _) => if st == SUCCESS {
                    self.phase = BuildPhase::Done;
                    BuildAction::Built(Engine { native: EngineNative::OpenCl(c, q) })
                } else {
                    self.phase = BuildPhase::ClRelease(c);
                    BuildAction::Call(Call::ClReleaseContext(c))
                },
                (_, NativeDevice::OpenCl(id)) => BuildAction::Call(Call::ClCreateCommandQueue(c, id)),
                (_, NativeDevice::Cuda(_)) => {
                    self.phase = BuildPhase::Done;
                    BuildAction::Over
                },
            },
            BuildPhase::ClRelease(_) => {
                self.phase = BuildPhase::Done;
                BuildAction::Failed(Error { kind: ErrorKind::UnableToCreateOpenClContext })
            },
            BuildPhase::Done => BuildAction::Over,
        }
    }
}

} // verus!
