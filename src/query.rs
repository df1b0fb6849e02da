//! The device enumeration cursor: a pull-based, finite, non-restartable state
//! machine over both vendor interfaces.
use vstd::prelude::*;
use crate::backend::{
    err, BackendApi, Call, Device, Error, ErrorKind, NativeDevice, Reply, ReplyView,
    CUDA_ALREADY_INITIALIZED, SUCCESS,
};
use crate::{cl, cu};

verus! {

/// Where the cursor stands.
#[derive(Clone, Copy, Debug, PartialEq, Eq, Structural)]
pub enum Phase {
    /// Waiting for the first vendor's binding to load.
    LoadCuda,
    /// Waiting for the first vendor's initialisation.
    InitCuda,
    /// Waiting for the first vendor's device count.
    CountCuda,
    /// Waiting for the second vendor's binding to load.
    LoadOpenCl,
    /// Waiting for the number of platforms.
    CountPlatforms,
    /// Waiting for the platform list of the given length.
    ListPlatforms(u32),
    /// Set up; each pull produces the next device.
    Enumerating,
    /// Setup failed; the cursor produces nothing more.
    Finished,
}

/// What the cursor asks for, or hands out, after one step.
#[derive(Clone, Copy, Debug, PartialEq, Eq)]
pub enum Action {
    /// Perform this native call and report its outcome.
    Call(Call),
    /// Setup is complete.
    Ready,
    /// Setup failed with this error; nothing more will be produced.
    Failed(Error),
    /// The next item of the pass.
    Item(Result<Device, Error>),
    /// The pass is over.
    Exhausted,
}

/// The mathematical state of a [`QueryDeviceIter`].
pub struct QueryView {
    pub backend: BackendApi,
    pub phase: Phase,
    pub cuda_count: i32,
    pub cuda_index: i32,
    pub platforms: Seq<cl::PlatformId>,
    pub platform_index: usize,
    pub device_index: usize,
    pub buffer: Option<Seq<cl::DeviceId>>,
    pub pending_count: Option<u32>,
}

/// Mutable traversal state of one enumeration pass.
pub struct QueryDeviceIter {
    backend: BackendApi,
    phase: Phase,
    cuda_count: i32,
    cuda_index: i32,
    cl_platforms: Vec<cl::PlatformId>,
    cl_platform_index: usize,
    cl_device_index: usize,
    cl_device_buffer: Option<Vec<cl::DeviceId>>,
    cl_pending_count: Option<u32>,
}

impl View for QueryDeviceIter {
    type V = QueryView;

    closed spec fn view(&self) -> QueryView {
        QueryView {
            backend: self.backend,
            phase: self.phase,
            cuda_count: self.cuda_count,
            cuda_index: self.cuda_index,
            platforms: self.cl_platforms@,
            platform_index: self.cl_platform_index,
            device_index: self.cl_device_index,
            buffer: match self.cl_device_buffer {
                Some(b) => Some(b@),
                None => None,
            },
            pending_count: self.cl_pending_count,
        }
    }
}

/// The state of a fresh pass over the given vendors.
pub open spec fn query_start(backend: BackendApi) -> QueryView {
    QueryView {
        backend,
        phase: if backend.includes_cuda() {
            Phase::LoadCuda
        } else {
            Phase::LoadOpenCl
        },
        cuda_count: 0,
        cuda_index: 0,
        platforms: Seq::empty(),
        platform_index: 0,
        device_index: 0,
        buffer: None,
        pending_count: None,
    }
}

pub open spec fn cuda_item(d: cu::Device) -> Action {
    Action::Item(Ok(Device { native: NativeDevice::Cuda(d) }))
}

pub open spec fn opencl_item(d: cl::DeviceId) -> Action {
    Action::Item(Ok(Device { native: NativeDevice::OpenCl(d) }))
}

pub open spec fn fail(s: QueryView, kind: ErrorKind) -> (QueryView, Action) {
    (QueryView { phase: Phase::Finished, ..s }, Action::Failed(err(kind)))
}

/// The state after the current platform is done with.
pub open spec fn next_platform(s: QueryView) -> QueryView {
    QueryView {
        platform_index: (s.platform_index + 1) as usize,
        device_index: 0,
        buffer: None,
        pending_count: None,
        ..s
    }
}

/// Having just moved to a platform: ask for its device count, or end the pass.
pub open spec fn enter_platform(s: QueryView) -> (QueryView, Action) {
    if s.platform_index < s.platforms.len() {
        (s, Action::Call(Call::ClDeviceCount(s.platforms[s.platform_index as int])))
    } else {
        (s, Action::Exhausted)
    }
}

/// Hand out the next device of the filled buffer, or move to the next platform.
pub open spec fn from_buffer(s: QueryView, b: Seq<cl::DeviceId>) -> (QueryView, Action) {
    if s.device_index < b.len() {
        (
            QueryView { device_index: (s.device_index + 1) as usize, ..s },
            opencl_item(b[s.device_index as int]),
        )
    } else {
        enter_platform(next_platform(s))
    }
}

/// One step of the second vendor's part of the pass.
pub open spec fn opencl_step(s: QueryView, r: ReplyView) -> (QueryView, Action)
    recommends
        s.platform_index < s.platforms.len(),
{
    let p = s.platforms[s.platform_index as int];
    match s.buffer {
        Some(b) => from_buffer(s, b),
        None => match s.pending_count {
            None => match r {
                ReplyView::Count(st, n) => if st != SUCCESS {
                    (next_platform(s), Action::Item(Err(err(ErrorKind::FailedToRetrieveOpenClDevices))))
                } else if n == 0 {
                    from_buffer(QueryView { buffer: Some(Seq::empty()), ..s }, Seq::empty())
                } else {
                    (QueryView { pending_count: Some(n), ..s }, Action::Call(Call::ClDeviceIds(p, n)))
                },
                _ => (s, Action::Call(Call::ClDeviceCount(p))),
            },
            Some(n) => match r {
                ReplyView::Devices(st, ds) => if st != SUCCESS {
                    (next_platform(s), Action::Item(Err(err(ErrorKind::FailedToRetrieveOpenClDevices))))
                } else {
                    from_buffer(QueryView { buffer: Some(ds), pending_count: None, ..s }, ds)
                },
                _ => (s, Action::Call(Call::ClDeviceIds(p, n))),
            },
        },
    }
}

/// One step of a set-up pass: first-vendor devices by ordinal, then each
/// platform's devices in the vendor's order.
pub open spec fn enumerate_step(s: QueryView, r: ReplyView) -> (QueryView, Action) {
    if s.cuda_index < s.cuda_count {
        match r {
            ReplyView::CudaDevice(st, d) => {
                let s2 = QueryView { cuda_index: (s.cuda_index + 1) as i32, ..s };
                if st == SUCCESS {
                    (s2, cuda_item(d))
                } else {
                    (s2, Action::Item(Err(err(ErrorKind::FailedToRetrieveCudaDevice))))
                }
            },
            _ => (s, Action::Call(Call::CuDeviceGet(s.cuda_index))),
        }
    } else if s.platform_index < s.platforms.len() {
        opencl_step(s, r)
    } else {
        (s, Action::Exhausted)
    }
}

/// After the first vendor is set up: the second vendor, or the end of setup.
pub open spec fn after_cuda(s: QueryView) -> (QueryView, Action) {
    if s.backend.includes_opencl() {
        (QueryView { phase: Phase::LoadOpenCl, ..s }, Action::Call(Call::LoadOpenCl))
    } else {
        (QueryView { phase: Phase::Enumerating, ..s }, Action::Ready)
    }
}

/// One step of the cursor: the state it moves to and what it asks for or
/// hands out, given the outcome of the call it last asked for.  An outcome
/// that does not answer the pending call is ignored and the call is asked
/// for again.
pub open spec fn query_step(s: QueryView, r: ReplyView) -> (QueryView, Action) {
    match s.phase {
        Phase::LoadCuda => match r {
            ReplyView::Loaded(true) => (QueryView { phase: Phase::InitCuda, ..s }, Action::Call(Call::CuInit)),
            ReplyView::Loaded(false) => fail(s, ErrorKind::UnableToLoadCuda),
            _ => (s, Action::Call(Call::LoadCuda)),
        },
        Phase::InitCuda => match r {
            ReplyView::Status(st) => if st == SUCCESS || st == CUDA_ALREADY_INITIALIZED {
                (QueryView { phase: Phase::CountCuda, ..s }, Action::Call(Call::CuDeviceGetCount))
            } else {
                fail(s, ErrorKind::FailedToInitializeCuda)
            },
            _ => (s, Action::Call(Call::CuInit)),
        },
        Phase::CountCuda => match r {
            ReplyView::CudaCount(st, n) => if st != SUCCESS {
                fail(s, ErrorKind::FailedToRetrieveCudaDevice)
            } else {
                after_cuda(QueryView { cuda_count: n, ..s })
            },
            _ => (s, Action::Call(Call::CuDeviceGetCount)),
        },
        Phase::LoadOpenCl => match r {
            ReplyView::Loaded(true) => (QueryView { phase: Phase::CountPlatforms, ..s }, Action::Call(Call::ClPlatformCount)),
            ReplyView::Loaded(false) => fail(s, ErrorKind::UnableToLoadOpenCl),
            _ => (s, Action::Call(Call::LoadOpenCl)),
        },
        Phase::CountPlatforms => match r {
            ReplyView::Count(st, n) => if st != SUCCESS {
                fail(s, ErrorKind::FailedToRetrieveOpenClDevices)
            } else if n == 0 {
                (QueryView { phase: Phase::Enumerating, ..s }, Action::Ready)
            } else {
                (QueryView { phase: Phase::ListPlatforms(n), ..s }, Action::Call(Call::ClPlatformIds(n)))
            },
            _ => (s, Action::Call(Call::ClPlatformCount)),
        },
        Phase::ListPlatforms(n) => match r {
            ReplyView::Platforms(st, ps) => if st != SUCCESS {
                fail(s, ErrorKind::FailedToRetrieveOpenClDevices)
            } else {
                (QueryView { phase: Phase::Enumerating, platforms: ps, ..s }, Action::Ready)
            },
            _ => (s, Action::Call(Call::ClPlatformIds(n))),
        },
        Phase::Enumerating => enumerate_step(s, r),
        Phase::Finished => (s, Action::Exhausted),
    }
}

/// Whether a native call belongs to the second vendor's interface.
pub open spec fn is_opencl_call(c: Call) -> bool {
    match c {
        Call::LoadOpenCl | Call::ClPlatformCount | Call::ClPlatformIds(_) | Call::ClDeviceCount(_)
        | Call::ClDeviceIds(_, _) | Call::ClDeviceNameLength(_) | Call::ClDeviceName(_, _)
        | Call::ClCreateContext(_) | Call::ClCreateCommandQueue(_, _)
        | Call::ClReleaseCommandQueue(_) | Call::ClReleaseContext(_) | Call::ClReleaseDevice(_) => true,
        _ => false,
    }
}

/// What holds of every state of a pass over the first vendor alone.
pub open spec fn cuda_only(s: QueryView) -> bool {
    s.backend == BackendApi::Cuda && s.platforms.len() == 0 && s.buffer is None && s.pending_count is None
        && !(s.phase is LoadOpenCl) && !(s.phase is CountPlatforms) && !(s.phase is ListPlatforms)
}

/// A pass over the first vendor alone never asks for a second-vendor call:
/// it starts in a state of [`cuda_only`], every step keeps it there, and no
/// step from there asks for such a call.
pub proof fn lemma_cuda_only_pass(s: QueryView, r: ReplyView)
    ensures
        cuda_only(query_start(BackendApi::Cuda)),
        cuda_only(s) ==> cuda_only(query_step(s, r).0),
        cuda_only(s) && query_step(s, r).1 is Call ==> !is_opencl_call(query_step(s, r).1->Call_0),
{
}

/// Whether the first vendor's part of a pass is over.
pub open spec fn cuda_done(s: QueryView) -> bool {
    s.phase is Finished || (s.phase is Enumerating && s.cuda_index >= s.cuda_count)
}

pub open spec fn yields_cuda_device(a: Action) -> bool {
    a is Item && a->Item_0 is Ok && a->Item_0->Ok_0.native is Cuda
}

pub open spec fn yields_opencl_device(a: Action) -> bool {
    a is Item && a->Item_0 is Ok && a->Item_0->Ok_0.native is OpenCl
}

/// Every first-vendor device of a pass comes before every second-vendor one:
/// a step that hands out a second-vendor device leaves the first vendor's part
/// over, and once it is over it stays over and no step hands out a
/// first-vendor device.
pub proof fn lemma_vendor_order(s: QueryView, r: ReplyView)
    ensures
        yields_opencl_device(query_step(s, r).1) ==> cuda_done(query_step(s, r).0),
        cuda_done(s) ==> cuda_done(query_step(s, r).0),
        cuda_done(s) ==> !yields_cuda_device(query_step(s, r).1),
{
}

impl Device {
    /// Starts an enumeration pass over the devices of the given vendors.
    ///
    /// The cursor first asks for the requested bindings to be loaded and set
    /// up; a requested vendor that cannot be loaded fails the pass.
    pub fn devices(backend: BackendApi) -> (r: QueryDeviceIter)
        ensures
            r@ == query_start(backend),
    {
        QueryDeviceIter {
            backend,
            phase: if matches!(backend, BackendApi::Cuda | BackendApi::All) {
                Phase::LoadCuda
            } else {
                Phase::LoadOpenCl
            },
            cuda_count: 0,
            cuda_index: 0,
            cl_platforms: Vec::new(),
            cl_platform_index: 0,
            cl_device_index: 0,
            cl_device_buffer: None,
            cl_pending_count: None,
        }
    }
}

impl QueryDeviceIter {
    fn fail(&mut self, kind: ErrorKind) -> (a: Action)
        ensures
            (final(self)@, a) == fail(old(self)@, kind),
    {
        self.phase = Phase::Finished;
        Action::Failed(Error { kind })
    }

    fn advance_platform(&mut self)
        requires
            old(self).cl_platform_index < old(self).cl_platforms.len(),
        ensures
            final(self)@ == next_platform(old(self)@),
    {
        self.cl_platform_index = self.cl_platform_index + 1;
        self.cl_device_index = 0;
        self.cl_device_buffer = None;
        self.cl_pending_count = None;
    }

    fn enter_platform(&mut self) -> (a: Action)
        ensures
            (final(self)@, a) == enter_platform(old(self)@),
    {
        if self.cl_platform_index < self.cl_platforms.len() {
            Action::Call(Call::ClDeviceCount(self.cl_platforms[self.cl_platform_index]))
        } else {
            Action::Exhausted
        }
    }

    fn from_buffer(&mut self) -> (a: Action)
        requires
            old(self).cl_device_buffer is Some,
            old(self).cl_platform_index < old(self).cl_platforms.len(),
        ensures
            (final(self)@, a) == from_buffer(old(self)@, old(self)@.buffer->Some_0),
    {
        let next = match &self.cl_device_buffer {
            Some(b) => if self.cl_device_index < b.len() {
                Some(b[self.cl_device_index])
            } else {
                None
            },
            None => None,
        };
        match next {
            Some(d) => {
                self.cl_device_index = self.cl_device_index + 1;
                Action::Item(Ok(Device { native: NativeDevice::OpenCl(d) }))
            },
            None => {
                self.advance_platform();
                self.enter_platform()
            },
        }
    }

    fn opencl_step(&mut self, reply: Reply) -> (a: Action)
        requires
            old(self).cl_platform_index < old(self).cl_platforms.len(),
        ensures
            (final(self)@, a) == opencl_step(old(self)@, reply@),
    {
        let p = self.cl_platforms[self.cl_platform_index];
        if self.cl_device_buffer.is_some() {
            return self.from_buffer();
        }
        match self.cl_pending_count {
            None => match reply {
                Reply::Count(st, n) => if st != SUCCESS {
                    self.advance_platform();
                    Action::Item(Err(Error { kind: ErrorKind::FailedToRetrieveOpenClDevices }))
                } else if n == 0 {
                    self.cl_device_buffer = Some(Vec::new());
                    self.from_buffer()
                } else {
                    self.cl_pending_count = Some(n);
                    Action::Call(Call::ClDeviceIds(p, n))
                },
                _ => Action::Call(Call::ClDeviceCount(p)),
            },
            Some(n) => match reply {
                Reply::Devices(st, ds) => if st != SUCCESS {
                    self.advance_platform();
                    Action::Item(Err(Error { kind: ErrorKind::FailedToRetrieveOpenClDevices }))
                } else {
                    self.cl_device_buffer = Some(ds);
                    self.cl_pending_count = None;
                    self.from_buffer()
                },
                _ => Action::Call(Call::ClDeviceIds(p, n)),
            },
        }
    }

    fn enumerate_step(&mut self, reply: Reply) -> (a: Action)
        ensures
            (final(self)@, a) == enumerate_step(old(self)@, reply@),
    {
        if self.cuda_index < self.cuda_count {
            match reply {
                Reply::CudaDevice(st, d) => {
                    self.cuda_index = self.cuda_index + 1;
                    if st == SUCCESS {
                        Action::Item(Ok(Device { native: NativeDevice::Cuda(d) }))
                    } else {
                        Action::Item(Err(Error { kind: ErrorKind::FailedToRetrieveCudaDevice }))
                    }
                },
                _ => Action::Call(Call::CuDeviceGet(self.cuda_index)),
            }
        } else if self.cl_platform_index < self.cl_platforms.len() {
            self.opencl_step(reply)
        } else {
            Action::Exhausted
        }
    }

    fn after_cuda(&mut self) -> (a: Action)
        ensures
            (final(self)@, a) == after_cuda(old(self)@),
    {
        if matches!(self.backend, BackendApi::OpenCl | BackendApi::All) {
            self.phase = Phase::LoadOpenCl;
            Action::Call(Call::LoadOpenCl)
        } else {
            self.phase = Phase::Enumerating;
            Action::Ready
        }
    }

    /// Advances the cursor by one step, given the outcome of the native call
    /// that it last asked for (or [`Reply::Pull`]).
    pub fn step(&mut self, reply: Reply) -> (a: Action)
        ensures
            (final(self)@, a) == query_step(old(self)@, reply@),
    {
        match self.phase {
            Phase::LoadCuda => match reply {
                Reply::Loaded(true) => {
                    self.phase = Phase::InitCuda;
                    Action::Call(Call::CuInit)
                },
                Reply::Loaded(false) => self.fail(ErrorKind::UnableToLoadCuda),
                _ => Action::Call(Call::LoadCuda),
            },
            Phase::InitCuda => match reply {
                Reply::Status(st) => if st == SUCCESS || st == CUDA_ALREADY_INITIALIZED {
                    self.phase = Phase::CountCuda;
                    Action::Call(Call::CuDeviceGetCount)
                } else {
                    self.fail(ErrorKind::FailedToInitializeCuda)
                },
                _ => Action::Call(Call::CuInit),
            },
            Phase::CountCuda => match reply {
                Reply::CudaCount(st, n) => if st != SUCCESS {
                    self.fail(ErrorKind::FailedToRetrieveCudaDevice)
                } else {
                    self.cuda_count = n;
                    self.after_cuda()
                },
                _ => Action::Call(Call::CuDeviceGetCount),
            },
            Phase::LoadOpenCl => match reply {
                Reply::Loaded(true) => {
                    self.phase = Phase::CountPlatforms;
                    Action::Call(Call::ClPlatformCount)
                },
                Reply::Loaded(false) => self.fail(ErrorKind::UnableToLoadOpenCl),
                _ => Action::Call(Call::LoadOpenCl),
            },
            Phase::CountPlatforms => match reply {
                Reply::Count(st, n) => if st != SUCCESS {
                    self.fail(ErrorKind::FailedToRetrieveOpenClDevices)
                } else if n == 0 {
                    self.phase = Phase::Enumerating;
                    Action::Ready
                } else {
                    self.phase = Phase::ListPlatforms(n);
                    Action::Call(Call::ClPlatformIds(n))
                },
                _ => Action::Call(Call::ClPlatformCount),
            },
            Phase::ListPlatforms(n) => match reply {
                Reply::Platforms(st, ps) => if st != SUCCESS {
                    self.fail(ErrorKind::FailedToRetrieveOpenClDevices)
                } else {
                    self.cl_platforms = ps;
                    self.phase = Phase::Enumerating;
                    Action::Ready
                },
                _ => Action::Call(Call::ClPlatformIds(n)),
            },
            Phase::Enumerating => self.enumerate_step(reply),
            Phase::Finished => Action::Exhausted,
        }
    }
}

} // verus!
