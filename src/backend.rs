//! The vocabulary shared by the device-layer state machines: which vendor, the
//! errors, the native calls that the machines ask for and the outcomes that
//! are reported back.
use vstd::prelude::*;
use crate::{cl, cu};

verus! {

/// The status that both vendor interfaces return on success.
pub const SUCCESS: i32 = 0;

/// The first vendor's status for an initialisation that already happened.
pub const CUDA_ALREADY_INITIALIZED: i32 = 5;

/// The fixed capacity of the buffer that receives a first-vendor device name.
pub const CUDA_NAME_CAPACITY: u32 = 256;

/// A vendor interface, or both of them as an enumeration filter.
#[derive(Clone, Copy, Debug, PartialEq, Eq, Structural)]
pub enum BackendApi {
    Cuda,
    OpenCl,
    All,
}

impl BackendApi {
    pub open spec fn includes_cuda(self) -> bool {
        self == BackendApi::Cuda || self == BackendApi::All
    }

    pub open spec fn includes_opencl(self) -> bool {
        self == BackendApi::OpenCl || self == BackendApi::All
    }

    pub open spec fn spec_label(self) -> Seq<char> {
        match self {
            BackendApi::Cuda => "Nvidia CUDA"@,
            BackendApi::OpenCl => "OpenCL"@,
            BackendApi::All => "All"@,
        }
    }

    /// The human-readable name of the interface.
    pub fn label(&self) -> (r: &'static str)
        ensures
            r@ == self.spec_label(),
    {
        match self {
            BackendApi::Cuda => "Nvidia CUDA",
            BackendApi::OpenCl => "OpenCL",
            BackendApi::All => "All",
        }
    }
}

/// What went wrong.
#[derive(Clone, Copy, Debug, PartialEq, Eq, Structural)]
pub enum ErrorKind {
    UnableToLoadOpenCl,
    UnableToLoadCuda,
    FailedToInitializeCuda,
    FailedToRetrieveCudaDevice,
    FailedToRetrieveOpenClDevices,
    UnableToCreateCudaContext,
    UnableToCreateOpenClContext,
    UnableToGetCudaDeviceName,
    UnableToGetOpenClDeviceName,
    InvalidNameFormat,
}

/// The error of every fallible device-layer operation.
#[derive(Clone, Copy, Debug, PartialEq, Eq, Structural)]
pub struct Error {
    pub kind: ErrorKind,
}

impl Error {
    pub open spec fn spec_message(self) -> Seq<char> {
        match self.kind {
            ErrorKind::UnableToLoadOpenCl => "Unable to load OpenCL"@,
            ErrorKind::UnableToLoadCuda => "Unable to load CUDA"@,
            ErrorKind::FailedToInitializeCuda => "Failed to initialize CUDA backend"@,
            ErrorKind::FailedToRetrieveCudaDevice => "Failed to retrieve CUDA device"@,
            ErrorKind::FailedToRetrieveOpenClDevices => "Failed to retrieve OpenCL devices"@,
            ErrorKind::UnableToCreateCudaContext => "Unable to create CUDA context"@,
            ErrorKind::UnableToCreateOpenClContext => "Unable to create OpenCL context"@,
            ErrorKind::UnableToGetCudaDeviceName => "Unable to get CUDA device name"@,
            ErrorKind::UnableToGetOpenClDeviceName => "Unable to get OpenCL device name"@,
            ErrorKind::InvalidNameFormat => "Invalid name format"@,
        }
    }

    /// A sentence that describes the error.
    pub fn message(&self) -> (r: &'static str)
        ensures
            r@ == self.spec_message(),
    {
        match self.kind {
            ErrorKind::UnableToLoadOpenCl => "Unable to load OpenCL",
            ErrorKind::UnableToLoadCuda => "Unable to load CUDA",
            ErrorKind::FailedToInitializeCuda => "Failed to initialize CUDA backend",
            ErrorKind::FailedToRetrieveCudaDevice => "Failed to retrieve CUDA device",
            ErrorKind::FailedToRetrieveOpenClDevices => "Failed to retrieve OpenCL devices",
            ErrorKind::UnableToCreateCudaContext => "Unable to create CUDA context",
            ErrorKind::UnableToCreateOpenClContext => "Unable to create OpenCL context",
            ErrorKind::UnableToGetCudaDeviceName => "Unable to get CUDA device name",
            ErrorKind::UnableToGetOpenClDeviceName => "Unable to get OpenCL device name",
            ErrorKind::InvalidNameFormat => "Invalid name format",
        }
    }
}

pub open spec fn err(kind: ErrorKind) -> Error {
    Error { kind }
}

/// A native call that a state machine asks its driver to perform.
#[derive(Clone, Copy, Debug, PartialEq, Eq, Structural)]
pub enum Call {
    /// Load the first vendor's binding.
    LoadCuda,
    /// Initialise the first vendor's driver (once per process).
    CuInit,
    /// Query the number of first-vendor devices.
    CuDeviceGetCount,
    /// Fetch the device of the given ordinal.
    CuDeviceGet(i32),
    /// Fill a buffer of the given capacity with the device's name.
    CuDeviceGetName(cu::Device, u32),
    /// Create an execution context for the device.
    CuCtxCreate(cu::CtxSchedFlag, cu::Device),
    /// Destroy an execution context.
    CuCtxDestroy(cu::Context),
    /// Load the second vendor's binding.
    LoadOpenCl,
    /// Query the number of platforms (a call with zero capacity).
    ClPlatformCount,
    /// Fill a buffer of the given capacity with the platform identifiers.
    ClPlatformIds(u32),
    /// Query the number of devices of a platform (a call with zero capacity).
    ClDeviceCount(cl::PlatformId),
    /// Fill a buffer of the given capacity with a platform's device identifiers.
    ClDeviceIds(cl::PlatformId, u32),
    /// Query the byte length of a device's name (a call with a null buffer).
    ClDeviceNameLength(cl::DeviceId),
    /// Fill a buffer of the given length with a device's name.
    ClDeviceName(cl::DeviceId, usize),
    /// Create a context for exactly the given device.
    ClCreateContext(cl::DeviceId),
    /// Create a command queue for the context and device.
    ClCreateCommandQueue(cl::Context, cl::DeviceId),
    /// Release a command queue.
    ClReleaseCommandQueue(cl::CommandQueue),
    /// Release a context.
    ClReleaseContext(cl::Context),
    /// Release a device identifier.
    ClReleaseDevice(cl::DeviceId),
}

/// The outcome of a native call, reported back to the state machine that
/// asked for it; each status is the vendor's own.
pub enum Reply {
    /// No outcome to report: the caller asks for the machine's next move.
    Pull,
    /// Whether a binding could be loaded.
    Loaded(bool),
    /// The status of a call that returns nothing else.
    Status(i32),
    /// The status and the count of a first-vendor count query.
    CudaCount(i32, i32),
    /// The status and the count of a second-vendor count query.
    Count(i32, u32),
    /// The status and the device of a first-vendor device query.
    CudaDevice(i32, cu::Device),
    /// The status and the filled buffer of a platform query.
    Platforms(i32, Vec<cl::PlatformId>),
    /// The status and the filled buffer of a device query.
    Devices(i32, Vec<cl::DeviceId>),
    /// The status and the byte length of a name-length query.
    Length(i32, usize),
    /// The status and the filled buffer of a name query.
    Name(i32, Vec<u8>),
    /// The status and the context of a first-vendor context creation.
    CudaContext(i32, cu::Context),
    /// The status and the context of a second-vendor context creation.
    ClContext(i32, cl::Context),
    /// The status and the queue of a command-queue creation.
    Queue(i32, cl::CommandQueue),
}

/// The mathematical value of a [`Reply`].
pub enum ReplyView {
    Pull,
    Loaded(bool),
    Status(i32),
    CudaCount(i32, i32),
    Count(i32, u32),
    CudaDevice(i32, cu::Device),
    Platforms(i32, Seq<cl::PlatformId>),
    Devices(i32, Seq<cl::DeviceId>),
    Length(i32, usize),
    Name(i32, Seq<u8>),
    CudaContext(i32, cu::Context),
    ClContext(i32, cl::Context),
    Queue(i32, cl::CommandQueue),
}

impl View for Reply {
    type V = ReplyView;

    open spec fn view(&self) -> ReplyView {
        match self {
            Reply::Pull => ReplyView::Pull,
            Reply::Loaded(b) => ReplyView::Loaded(*b),
            Reply::Status(s) => ReplyView::Status(*s),
            Reply::CudaCount(s, n) => ReplyView::CudaCount(*s, *n),
            Reply::Count(s, n) => ReplyView::Count(*s, *n),
            Reply::CudaDevice(s, d) => ReplyView::CudaDevice(*s, *d),
            Reply::Platforms(s, v) => ReplyView::Platforms(*s, v@),
            Reply::Devices(s, v) => ReplyView::Devices(*s, v@),
            Reply::Length(s, n) => ReplyView::Length(*s, *n),
            Reply::Name(s, v) => ReplyView::Name(*s, v@),
            Reply::CudaContext(s, c) => ReplyView::CudaContext(*s, *c),
            Reply::ClContext(s, c) => ReplyView::ClContext(*s, *c),
            Reply::Queue(s, q) => ReplyView::Queue(*s, *q),
        }
    }
}

/// The native identifier of a device, tagged with its vendor.
#[derive(Clone, Copy, Debug, PartialEq, Eq, Structural)]
pub enum NativeDevice {
    Cuda(cu::Device),
    OpenCl(cl::DeviceId),
}

/// A compute device of either vendor, as produced by an enumeration pass.
#[derive(Clone, Copy, Debug, PartialEq, Eq, Structural)]
pub struct Device {
    pub native: NativeDevice,
}

impl Device {
    pub open spec fn spec_backend(self) -> BackendApi {
        match self.native {
            NativeDevice::Cuda(_) => BackendApi::Cuda,
            NativeDevice::OpenCl(_) => BackendApi::OpenCl,
        }
    }

    /// The vendor interface that the device belongs to.
    pub fn backend(&self) -> (r: BackendApi)
        ensures
            r == self.spec_backend(),
    {
        match self.native {
            NativeDevice::Cuda(_) => BackendApi::Cuda,
            NativeDevice::OpenCl(_) => BackendApi::OpenCl,
        }
    }

    /// The native call that gives the device identifier back when the device
    /// is dropped; only the second vendor asks for one.
    pub fn release_call(&self) -> (r: Option<Call>)
        ensures
            r == match self.native {
                NativeDevice::Cuda(_) => None,
                NativeDevice::OpenCl(id) => Some(Call::ClReleaseDevice(id)),
            },
    {
        match self.native {
            NativeDevice::Cuda(_) => None,
            NativeDevice::OpenCl(id) => Some(Call::ClReleaseDevice(id)),
        }
    }
}

} // verus!
