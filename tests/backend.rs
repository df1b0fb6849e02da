use dlcompute::backend::{Call, ErrorKind, NativeDevice, Reply};
use dlcompute::cl::{CommandQueue, Context as ClContext, DeviceId, PlatformId};
use dlcompute::cu::{Context as CuContext, CtxSchedFlag, Device as CuDevice, JitOption};
use dlcompute::engine::{BuildAction, EngineNative};
use dlcompute::handle::Handle;
use dlcompute::name::{c_string_bytes, text_from_c_buffer, NameAction};
use dlcompute::operand::{Element, GeneralType, ScalarType};
use dlcompute::query::Action;
use dlcompute::{BackendApi, Device, Engine, Error};

/// A recording stand-in for both vendor drivers.
struct FakeHost {
    cuda: Option<Vec<i32>>,
    platforms: Option<Vec<(usize, Vec<usize>)>>,
    init_status: i32,
    device_get_status: i32,
    context_status: i32,
    queue_status: i32,
    calls: Vec<Call>,
}

fn host(cuda: Option<Vec<i32>>, platforms: Option<Vec<(usize, Vec<usize>)>>) -> FakeHost {
    FakeHost {
        cuda,
        platforms,
        init_status: 0,
        device_get_status: 0,
        context_status: 0,
        queue_status: 0,
        calls: Vec::new(),
    }
}

fn name_bytes(text: &str, capacity: usize) -> Vec<u8> {
    let mut b = text.as_bytes().to_vec();
    b.resize(capacity, 0);
    b
}

impl FakeHost {
    fn devices_of(&self, p: PlatformId) -> Vec<usize> {
        for (id, ds) in self.platforms.as_ref().unwrap() {
            if *id == p.0 {
                return ds.clone();
            }
        }
        Vec::new()
    }

    fn answer(&mut self, call: Call) -> Reply {
        self.calls.push(call);
        match call {
            Call::LoadCuda => Reply::Loaded(self.cuda.is_some()),
            Call::CuInit => Reply::Status(self.init_status),
            Call::CuDeviceGetCount => Reply::CudaCount(0, self.cuda.as_ref().unwrap().len() as i32),
            Call::CuDeviceGet(i) => {
                Reply::CudaDevice(self.device_get_status, CuDevice(self.cuda.as_ref().unwrap()[i as usize]))
            }
            Call::CuDeviceGetName(d, cap) => Reply::Name(0, name_bytes(&format!("GeForce {}", d.0), cap as usize)),
            Call::CuCtxCreate(_, d) => Reply::CudaContext(self.context_status, CuContext(100 + d.0 as usize)),
            Call::CuCtxDestroy(_) => Reply::Status(0),
            Call::LoadOpenCl => Reply::Loaded(self.platforms.is_some()),
            Call::ClPlatformCount => Reply::Count(0, self.platforms.as_ref().unwrap().len() as u32),
            Call::ClPlatformIds(n) => Reply::Platforms(
                0,
                self.platforms.as_ref().unwrap().iter().take(n as usize).map(|p| PlatformId(p.0)).collect(),
            ),
            Call::ClDeviceCount(p) => Reply::Count(0, self.devices_of(p).len() as u32),
            Call::ClDeviceIds(p, n) => {
                Reply::Devices(0, self.devices_of(p).iter().take(n as usize).map(|d| DeviceId(*d)).collect())
            }
            Call::ClDeviceNameLength(id) => Reply::Length(0, format!("Radeon {}", id.0).len() + 1),
            Call::ClDeviceName(id, n) => Reply::Name(0, name_bytes(&format!("Radeon {}", id.0), n)),
            Call::ClCreateContext(id) => Reply::ClContext(self.context_status, ClContext(200 + id.0)),
            Call::ClCreateCommandQueue(c, _) => Reply::Queue(self.queue_status, CommandQueue(c.0 + 1000)),
            Call::ClReleaseCommandQueue(_) | Call::ClReleaseContext(_) | Call::ClReleaseDevice(_) => Reply::Status(0),
        }
    }

    fn pass(&mut self, backend: BackendApi) -> Result<Vec<Result<Device, Error>>, Error> {
        let mut q = Device::devices(backend);
        let mut reply = Reply::Pull;
        loop {
            match q.step(reply) {
                Action::Call(c) => reply = self.answer(c),
                Action::Ready => break,
                Action::Failed(e) => return Err(e),
                other => panic!("unexpected during setup: {:?}", other),
            }
        }
        let mut items = Vec::new();
        reply = Reply::Pull;
        loop {
            match q.step(reply) {
                Action::Call(c) => reply = self.answer(c),
                Action::Item(item) => {
                    items.push(item);
                    reply = Reply::Pull;
                }
                Action::Exhausted => break,
                other => panic!("unexpected while enumerating: {:?}", other),
            }
        }
        Ok(items)
    }

    fn name(&mut self, device: &Device) -> Result<String, Error> {
        let mut q = device.name();
        let mut reply = Reply::Pull;
        loop {
            match q.step(reply) {
                NameAction::Call(c) => reply = self.answer(c),
                NameAction::Named(r) => return r,
                NameAction::Over => panic!("name query ended without a result"),
            }
        }
    }

    fn create_engine(&mut self, device: &Device) -> Result<Engine, Error> {
        let mut b = device.create_engine();
        let mut reply = Reply::Pull;
        loop {
            match b.step(reply) {
                BuildAction::Call(c) => reply = self.answer(c),
                BuildAction::Built(e) => return Ok(e),
                BuildAction::Failed(e) => return Err(e),
                BuildAction::Over => panic!("engine creation ended without a result"),
            }
        }
    }
}

fn is_opencl(c: &Call) -> bool {
    matches!(
        c,
        Call::LoadOpenCl
            | Call::ClPlatformCount
            | Call::ClPlatformIds(_)
            | Call::ClDeviceCount(_)
            | Call::ClDeviceIds(_, _)
            | Call::ClDeviceNameLength(_)
            | Call::ClDeviceName(_, _)
            | Call::ClCreateContext(_)
            | Call::ClCreateCommandQueue(_, _)
            | Call::ClReleaseCommandQueue(_)
            | Call::ClReleaseContext(_)
            | Call::ClReleaseDevice(_)
    )
}

fn cuda(d: i32) -> Device {
    Device { native: NativeDevice::Cuda(CuDevice(d)) }
}

fn opencl(d: usize) -> Device {
    Device { native: NativeDevice::OpenCl(DeviceId(d)) }
}

#[test]
fn query_device() {
    let mut h = host(Some(vec![0]), Some(vec![(7, vec![70, 71])]));
    for device in h.pass(BackendApi::All).unwrap().into_iter().flatten() {
        if device.backend() == BackendApi::Cuda {
            let cuda_name = h.name(&device).unwrap();
            println!("CUDA: {cuda_name}");
        } else {
            let cl_name = h.name(&device).unwrap();
            println!("OpenCL: {cl_name}");

            let _engine = h.create_engine(&device).unwrap();
        }
    }
}

#[test]
fn cuda_only_pass_yields_every_ordinal_and_no_opencl_call() {
    let mut h = host(Some(vec![5, 6, 7]), Some(vec![(1, vec![10])]));
    let items = h.pass(BackendApi::Cuda).unwrap();
    assert_eq!(items, vec![Ok(cuda(5)), Ok(cuda(6)), Ok(cuda(7))]);
    assert!(!h.calls.iter().any(is_opencl));
    assert!(h.calls.contains(&Call::CuDeviceGet(2)));
}

#[test]
fn cuda_only_pass_with_no_devices_is_empty() {
    let mut h = host(Some(vec![]), None);
    assert_eq!(h.pass(BackendApi::Cuda).unwrap(), vec![]);
}

#[test]
fn opencl_pass_is_platform_major() {
    let mut h = host(None, Some(vec![(1, vec![10, 11]), (2, vec![]), (3, vec![30, 31, 32])]));
    let items = h.pass(BackendApi::OpenCl).unwrap();
    assert_eq!(items, vec![Ok(opencl(10)), Ok(opencl(11)), Ok(opencl(30)), Ok(opencl(31)), Ok(opencl(32))]);
    assert!(!h.calls.contains(&Call::LoadCuda));
}

#[test]
fn opencl_pass_without_platforms_is_empty() {
    let mut h = host(None, Some(vec![]));
    assert_eq!(h.pass(BackendApi::OpenCl).unwrap(), vec![]);
}

#[test]
fn all_pass_puts_first_vendor_first() {
    let mut h = host(Some(vec![0, 1]), Some(vec![(4, vec![40]), (5, vec![50, 51])]));
    let items = h.pass(BackendApi::All).unwrap();
    assert_eq!(items, vec![Ok(cuda(0)), Ok(cuda(1)), Ok(opencl(40)), Ok(opencl(50)), Ok(opencl(51))]);
}

#[test]
fn missing_requested_vendor_fails_the_pass() {
    let mut h = host(None, Some(vec![(1, vec![10])]));
    assert_eq!(h.pass(BackendApi::All).unwrap_err().kind, ErrorKind::UnableToLoadCuda);
    assert_eq!(h.calls, vec![Call::LoadCuda]);
    let mut h = host(Some(vec![0]), None);
    assert_eq!(h.pass(BackendApi::OpenCl).unwrap_err().kind, ErrorKind::UnableToLoadOpenCl);
    let mut h = host(Some(vec![0]), None);
    assert_eq!(h.pass(BackendApi::All).unwrap_err().kind, ErrorKind::UnableToLoadOpenCl);
}

#[test]
fn cuda_initialisation_status() {
    let mut h = host(Some(vec![3]), None);
    h.init_status = 5;
    assert_eq!(h.pass(BackendApi::Cuda).unwrap(), vec![Ok(cuda(3))]);
    let mut h = host(Some(vec![3]), None);
    h.init_status = 2;
    assert_eq!(h.pass(BackendApi::Cuda).unwrap_err().kind, ErrorKind::FailedToInitializeCuda);
}

#[test]
fn failed_device_fetch_is_one_item_and_the_pass_goes_on() {
    let mut h = host(Some(vec![0, 1]), None);
    h.device_get_status = 101;
    let items = h.pass(BackendApi::Cuda).unwrap();
    let failed = Err(Error { kind: ErrorKind::FailedToRetrieveCudaDevice });
    assert_eq!(items, vec![failed, failed]);
}

#[test]
fn failed_platform_query_is_one_item() {
    let mut q = Device::devices(BackendApi::OpenCl);
    assert_eq!(q.step(Reply::Pull), Action::Call(Call::LoadOpenCl));
    assert_eq!(q.step(Reply::Loaded(true)), Action::Call(Call::ClPlatformCount));
    assert_eq!(q.step(Reply::Count(0, 2)), Action::Call(Call::ClPlatformIds(2)));
    assert_eq!(q.step(Reply::Platforms(0, vec![PlatformId(1), PlatformId(2)])), Action::Ready);
    assert_eq!(q.step(Reply::Pull), Action::Call(Call::ClDeviceCount(PlatformId(1))));
    assert_eq!(
        q.step(Reply::Count(-1, 0)),
        Action::Item(Err(Error { kind: ErrorKind::FailedToRetrieveOpenClDevices }))
    );
    assert_eq!(q.step(Reply::Pull), Action::Call(Call::ClDeviceCount(PlatformId(2))));
    assert_eq!(q.step(Reply::Count(0, 1)), Action::Call(Call::ClDeviceIds(PlatformId(2), 1)));
    assert_eq!(
        q.step(Reply::Devices(-5, vec![])),
        Action::Item(Err(Error { kind: ErrorKind::FailedToRetrieveOpenClDevices }))
    );
    assert_eq!(q.step(Reply::Pull), Action::Exhausted);
    assert_eq!(q.step(Reply::Pull), Action::Exhausted);
}

#[test]
fn unrelated_reply_asks_again() {
    let mut q = Device::devices(BackendApi::Cuda);
    assert_eq!(q.step(Reply::Status(0)), Action::Call(Call::LoadCuda));
    assert_eq!(q.step(Reply::Loaded(true)), Action::Call(Call::CuInit));
    assert_eq!(q.step(Reply::Loaded(true)), Action::Call(Call::CuInit));
}

#[test]
fn opencl_engine_is_context_then_queue_and_torn_down_queue_first() {
    let mut h = host(None, Some(vec![(1, vec![9])]));
    let engine = h.create_engine(&opencl(9)).unwrap();
    assert_eq!(
        h.calls,
        vec![Call::ClCreateContext(DeviceId(9)), Call::ClCreateCommandQueue(ClContext(209), DeviceId(9))]
    );
    assert_eq!(engine.native, EngineNative::OpenCl(ClContext(209), CommandQueue(1209)));
    assert_eq!(
        engine.teardown(),
        vec![Call::ClReleaseCommandQueue(CommandQueue(1209)), Call::ClReleaseContext(ClContext(209))]
    );
}

#[test]
fn failed_queue_releases_the_context() {
    let mut h = host(None, Some(vec![(1, vec![9])]));
    h.queue_status = -35;
    let e = h.create_engine(&opencl(9)).unwrap_err();
    assert_eq!(e.kind, ErrorKind::UnableToCreateOpenClContext);
    assert_eq!(h.calls.last(), Some(&Call::ClReleaseContext(ClContext(209))));
    assert_eq!(h.calls.len(), 3);
}

#[test]
fn failed_opencl_context() {
    let mut h = host(None, Some(vec![(1, vec![9])]));
    h.context_status = -6;
    assert_eq!(h.create_engine(&opencl(9)).unwrap_err().kind, ErrorKind::UnableToCreateOpenClContext);
    assert_eq!(h.calls, vec![Call::ClCreateContext(DeviceId(9))]);
}

#[test]
fn cuda_engine() {
    let mut h = host(Some(vec![2]), None);
    let engine = h.create_engine(&cuda(2)).unwrap();
    assert_eq!(h.calls, vec![Call::CuCtxCreate(CtxSchedFlag::Auto, CuDevice(2))]);
    assert_eq!(engine.teardown(), vec![Call::CuCtxDestroy(CuContext(102))]);
    let mut h = host(Some(vec![2]), None);
    h.context_status = 1;
    assert_eq!(h.create_engine(&cuda(2)).unwrap_err().kind, ErrorKind::UnableToCreateCudaContext);
}

#[test]
fn engine_creation_ends_after_its_result() {
    let mut b = cuda(1).create_engine();
    assert_eq!(b.step(Reply::Pull), BuildAction::Call(Call::CuCtxCreate(CtxSchedFlag::Auto, CuDevice(1))));
    assert_eq!(
        b.step(Reply::CudaContext(0, CuContext(8))),
        BuildAction::Built(Engine { native: EngineNative::Cuda(CuContext(8)) })
    );
    assert_eq!(b.step(Reply::Pull), BuildAction::Over);
}

#[test]
fn device_names() {
    let mut h = host(Some(vec![3]), Some(vec![(1, vec![12])]));
    assert_eq!(h.name(&cuda(3)).unwrap(), "GeForce 3");
    assert_eq!(h.calls, vec![Call::CuDeviceGetName(CuDevice(3), 256)]);
    h.calls.clear();
    assert_eq!(h.name(&opencl(12)).unwrap(), "Radeon 12");
    assert_eq!(h.calls, vec![Call::ClDeviceNameLength(DeviceId(12)), Call::ClDeviceName(DeviceId(12), 10)]);
}

#[test]
fn failed_name_queries() {
    let mut q = cuda(1).name();
    q.step(Reply::Pull);
    match q.step(Reply::Name(100, vec![])) {
        NameAction::Named(Err(e)) => assert_eq!(e.kind, ErrorKind::UnableToGetCudaDeviceName),
        _ => panic!("expected a failure"),
    }
    let mut q = opencl(1).name();
    q.step(Reply::Pull);
    match q.step(Reply::Length(-30, 0)) {
        NameAction::Named(Err(e)) => assert_eq!(e.kind, ErrorKind::UnableToGetOpenClDeviceName),
        _ => panic!("expected a failure"),
    }
    let mut q = opencl(1).name();
    q.step(Reply::Pull);
    q.step(Reply::Length(0, 4));
    match q.step(Reply::Name(-30, vec![])) {
        NameAction::Named(Err(e)) => assert_eq!(e.kind, ErrorKind::UnableToGetOpenClDeviceName),
        _ => panic!("expected a failure"),
    }
}

#[test]
fn c_buffer_text() {
    assert_eq!(text_from_c_buffer(&b"Radeon\0junk".to_vec()).unwrap(), "Radeon");
    assert_eq!(text_from_c_buffer(&b"full".to_vec()).unwrap(), "full");
    assert_eq!(text_from_c_buffer(&vec![0, 65]).unwrap(), "");
    assert_eq!(text_from_c_buffer(&"Grafik\u{e9}\0".as_bytes().to_vec()).unwrap(), "Grafik\u{e9}");
    assert_eq!(text_from_c_buffer(&vec![0xff, 0xfe, 0]).unwrap_err().kind, ErrorKind::InvalidNameFormat);
    assert_eq!(c_string_bytes(&b"ab\0cd\0".to_vec()), b"ab".to_vec());
}

#[test]
fn handles_follow_the_null_convention() {
    assert!(CuDevice::null().is_null());
    assert!(CuContext::null().is_null());
    assert!(PlatformId::null().is_null());
    assert!(DeviceId::null().is_null());
    assert!(ClContext::null().is_null());
    assert!(CommandQueue::null().is_null());
    assert!(dlcompute::cu::Module::null().is_null());
    assert!(!CuDevice(3).is_null());
    assert!(!CuDevice(-1).is_null());
    assert!(!DeviceId(0x7f00).is_null());
    assert!(!CommandQueue(1).is_null());
}

#[test]
fn release_of_devices() {
    assert_eq!(opencl(4).release_call(), Some(Call::ClReleaseDevice(DeviceId(4))));
    assert_eq!(cuda(4).release_call(), None);
}

#[test]
fn labels_and_messages() {
    assert_eq!(BackendApi::Cuda.label(), "Nvidia CUDA");
    assert_eq!(BackendApi::OpenCl.label(), "OpenCL");
    assert_eq!(BackendApi::All.label(), "All");
    assert_eq!(Error { kind: ErrorKind::UnableToLoadCuda }.message(), "Unable to load CUDA");
    assert_eq!(Error { kind: ErrorKind::InvalidNameFormat }.message(), "Invalid name format");
    assert_eq!(cuda(0).backend(), BackendApi::Cuda);
    assert_eq!(opencl(0).backend(), BackendApi::OpenCl);
}

#[test]
fn native_flag_values() {
    assert_eq!(CtxSchedFlag::Auto.value(), 0);
    assert_eq!(CtxSchedFlag::BlockingSync.value(), 4);
    assert_eq!(JitOption::MaxRegisters.value(), 0);
    assert_eq!(JitOption::NumOptions.value(), 20);
}

#[test]
fn element_channels() {
    let e = Element { channels: 3, type_: ScalarType::U8 };
    assert_eq!(e.channels(), 3);
    assert_ne!(GeneralType::Tensor2(2, 2, e), GeneralType::Scalar(ScalarType::U8));
}
