//! What a whole enumeration pass yields against drivers whose calls all
//! succeed.
use vstd::prelude::*;
use crate::backend::{BackendApi, Call, Device, Error, NativeDevice, ReplyView, SUCCESS};
use crate::query::{
    enumerate_step, from_buffer, next_platform, opencl_step, query_start, query_step, Action, Phase,
    QueryView,
};
use crate::{cl, cu};

verus! {

/// Drivers in which every call succeeds: the first vendor's devices by
/// ordinal, the platforms, and the devices of each platform.
pub struct HostModel {
    pub cuda_devices: Seq<cu::Device>,
    pub platforms: Seq<cl::PlatformId>,
    pub devices: spec_fn(cl::PlatformId) -> Seq<cl::DeviceId>,
}

/// Every count of the model fits the driver's count type.
pub open spec fn host_fits(h: HostModel) -> bool {
    &&& h.cuda_devices.len() <= i32::MAX
    &&& h.platforms.len() <= u32::MAX
    &&& forall|p: cl::PlatformId| (#[trigger] (h.devices)(p)).len() <= u32::MAX
}

/// The model's answer to a native call.
pub open spec fn host_reply(h: HostModel, c: Call) -> ReplyView {
    match c {
        Call::LoadCuda | Call::LoadOpenCl => ReplyView::Loaded(true),
        Call::CuInit => ReplyView::Status(SUCCESS),
        Call::CuDeviceGetCount => ReplyView::CudaCount(SUCCESS, h.cuda_devices.len() as i32),
        Call::CuDeviceGet(i) => ReplyView::CudaDevice(SUCCESS, h.cuda_devices[i as int]),
        Call::ClPlatformCount => ReplyView::Count(SUCCESS, h.platforms.len() as u32),
        Call::ClPlatformIds(_) => ReplyView::Platforms(SUCCESS, h.platforms),
        Call::ClDeviceCount(p) => ReplyView::Count(SUCCESS, (h.devices)(p).len() as u32),
        Call::ClDeviceIds(p, _) => ReplyView::Devices(SUCCESS, (h.devices)(p)),
        _ => ReplyView::Pull,
    }
}

/// The items of at most `fuel` steps of a cursor driven against the model:
/// each asked-for call is answered, each item is followed by a pull.
pub open spec fn drive(s: QueryView, h: HostModel, r: ReplyView, fuel: nat) -> Seq<Result<Device, Error>>
    decreases fuel,
{
    if fuel == 0 {
        Seq::empty()
    } else {
        let (s2, a) = query_step(s, r);
        match a {
            Action::Call(c) => drive(s2, h, host_reply(h, c), (fuel - 1) as nat),
            Action::Item(x) => seq![x] + drive(s2, h, ReplyView::Pull, (fuel - 1) as nat),
            Action::Ready => drive(s2, h, ReplyView::Pull, (fuel - 1) as nat),
            _ => Seq::empty(),
        }
    }
}

pub open spec fn cuda_ok(d: cu::Device) -> Result<Device, Error> {
    Ok(Device { native: NativeDevice::Cuda(d) })
}

pub open spec fn opencl_ok(d: cl::DeviceId) -> Result<Device, Error> {
    Ok(Device { native: NativeDevice::OpenCl(d) })
}

/// The devices of the platforms from index `i` on, platform after platform.
pub open spec fn devices_from(h: HostModel, ps: Seq<cl::PlatformId>, i: int) -> Seq<Result<Device, Error>>
    decreases ps.len() - i,
{
    if i < 0 || i >= ps.len() {
        Seq::empty()
    } else {
        (h.devices)(ps[i]).map_values(|d: cl::DeviceId| opencl_ok(d)) + devices_from(h, ps, i + 1)
    }
}

/// An upper bound on the steps that the platforms from index `i` on take.
pub open spec fn platforms_weight(h: HostModel, ps: Seq<cl::PlatformId>, i: int) -> nat
    decreases ps.len() - i,
{
    if i < 0 || i >= ps.len() {
        0
    } else {
        4 + (h.devices)(ps[i]).len() + platforms_weight(h, ps, i + 1)
    }
}

/// What a pass over the given vendors yields: the first vendor's devices by
/// ordinal, then each platform's devices, platform after platform.
pub open spec fn pass_items(h: HostModel, backend: BackendApi) -> Seq<Result<Device, Error>> {
    (if backend.includes_cuda() {
        h.cuda_devices.map_values(|d: cu::Device| cuda_ok(d))
    } else {
        Seq::empty()
    }) + (if backend.includes_opencl() {
        devices_from(h, h.platforms, 0)
    } else {
        Seq::empty()
    })
}

/// A set-up cursor that agrees with the model.
pub open spec fn agrees(s: QueryView, h: HostModel) -> bool {
    &&& s.phase == Phase::Enumerating
    &&& host_fits(h)
    &&& 0 <= s.cuda_index
    &&& s.cuda_count <= h.cuda_devices.len()
    &&& s.buffer is None ==> s.device_index == 0
    &&& s.platform_index <= s.platforms.len() <= usize::MAX
    &&& s.buffer is Some ==> {
        &&& s.pending_count is None
        &&& s.platform_index < s.platforms.len()
        &&& s.buffer->Some_0 == (h.devices)(s.platforms[s.platform_index as int])
        &&& s.device_index <= s.buffer->Some_0.len()
    }
    &&& s.pending_count is Some ==> {
        &&& s.platform_index < s.platforms.len()
        &&& s.pending_count->Some_0 == (h.devices)(s.platforms[s.platform_index as int]).len()
        &&& s.pending_count->Some_0 > 0
    }
}

/// What a set-up cursor still has to yield.
pub open spec fn remaining(s: QueryView, h: HostModel) -> Seq<Result<Device, Error>> {
    let cuda = if s.cuda_index < s.cuda_count {
        h.cuda_devices.subrange(s.cuda_index as int, s.cuda_count as int).map_values(|d: cu::Device| cuda_ok(d))
    } else {
        Seq::empty()
    };
    let opencl = match s.buffer {
        Some(b) => b.skip(s.device_index as int).map_values(|d: cl::DeviceId| opencl_ok(d))
            + devices_from(h, s.platforms, s.platform_index + 1),
        None => devices_from(h, s.platforms, s.platform_index as int),
    };
    cuda + opencl
}

/// An upper bound on the steps that a set-up cursor still takes.
pub open spec fn weight(s: QueryView, h: HostModel) -> nat {
    let cuda: nat = if s.cuda_index < s.cuda_count {
        (2 * (s.cuda_count - s.cuda_index)) as nat
    } else {
        0
    };
    let current: nat = match (s.buffer, s.pending_count) {
        (Some(b), _) => (b.len() - s.device_index + 1) as nat,
        (None, Some(n)) => (3 + n) as nat,
        _ => 0,
    };
    let next = if s.buffer is Some || s.pending_count is Some {
        s.platform_index + 1
    } else {
        s.platform_index as int
    };
    cuda + current + platforms_weight(h, s.platforms, next) + 1
}

/// `r` is a pull, or the model's answer to the call that `s` asks for.
pub open spec fn answers(s: QueryView, h: HostModel, r: ReplyView) -> bool {
    r == ReplyView::Pull || {
        let a = query_step(s, ReplyView::Pull).1;
        a is Call && r == host_reply(h, a->Call_0)
    }
}

pub open spec fn fuel_for(s: QueryView, h: HostModel, r: ReplyView) -> nat {
    weight(s, h) + if r == ReplyView::Pull { 1nat } else { 0nat }
}

/// Moving to the next platform keeps the cursor in agreement with the model,
/// and the step that follows accounts for what remains.
proof fn lemma_enter_next(s: QueryView, h: HostModel, fuel: nat)
    requires
        agrees(s, h),
        s.cuda_index >= s.cuda_count,
        s.platform_index < s.platforms.len(),
        fuel >= weight(next_platform(s), h),
    ensures
        ({
            let s2 = next_platform(s);
            let (s3, a) = crate::query::enter_platform(s2);
            &&& a is Call ==> drive(s3, h, host_reply(h, a->Call_0), fuel) == remaining(s2, h)
            &&& !(a is Call) ==> a is Exhausted && remaining(s2, h) == Seq::<Result<Device, Error>>::empty()
        }),
    decreases fuel, 2nat,
{
    let s2 = next_platform(s);
    if s2.platform_index < s2.platforms.len() {
        let p = s2.platforms[s2.platform_index as int];
        let r2 = host_reply(h, Call::ClDeviceCount(p));
        assert(query_step(s2, ReplyView::Pull) == (s2, Action::Call(Call::ClDeviceCount(p))));
        lemma_drive(s2, h, r2, fuel);
    }
}

/// A set-up cursor driven against the model yields exactly what remains.
pub proof fn lemma_drive(s: QueryView, h: HostModel, r: ReplyView, fuel: nat)
    requires
        agrees(s, h),
        answers(s, h, r),
        fuel >= fuel_for(s, h, r),
    ensures
        drive(s, h, r, fuel) == remaining(s, h),
    decreases fuel, 1nat,
{
    if s.cuda_index < s.cuda_count {
        lemma_drive_cuda(s, h, r, fuel);
    } else if s.platform_index < s.platforms.len() {
        if s.buffer is Some {
            lemma_drive_buffer(s, h, r, fuel);
        } else if s.pending_count is Some {
            lemma_drive_pending(s, h, r, fuel);
        } else {
            lemma_drive_fresh(s, h, r, fuel);
        }
    } else {
        assert(query_step(s, r).1 == Action::Exhausted);
        assert(remaining(s, h) =~= Seq::<Result<Device, Error>>::empty());
    }
}

proof fn lemma_drive_cuda(s: QueryView, h: HostModel, r: ReplyView, fuel: nat)
    requires
        agrees(s, h),
        answers(s, h, r),
        fuel >= fuel_for(s, h, r),
        s.cuda_index < s.cuda_count,
    ensures
        drive(s, h, r, fuel) == remaining(s, h),
    decreases fuel, 0nat,
{
    let (s2, a) = query_step(s, r);
    let f1 = (fuel - 1) as nat;
    let ci = s.cuda_index as int;
    let get = Call::CuDeviceGet(s.cuda_index);
    assert(query_step(s, ReplyView::Pull) == (s, Action::Call(get)));
    if r == ReplyView::Pull {
        lemma_drive(s, h, host_reply(h, get), f1);
    } else {
        let x = cuda_ok(h.cuda_devices[ci]);
        assert(a == Action::Item(x));
        lemma_drive(s2, h, ReplyView::Pull, f1);
        assert(remaining(s, h) =~= seq![x] + remaining(s2, h));
    }
}

proof fn lemma_drive_buffer(s: QueryView, h: HostModel, r: ReplyView, fuel: nat)
    requires
        agrees(s, h),
        answers(s, h, r),
        fuel >= fuel_for(s, h, r),
        s.cuda_index >= s.cuda_count,
        s.buffer is Some,
    ensures
        drive(s, h, r, fuel) == remaining(s, h),
    decreases fuel, 0nat,
{
    let (s2, a) = query_step(s, r);
    let f1 = (fuel - 1) as nat;
    let pi = s.platform_index as int;
    let b = s.buffer->Some_0;
    assert(query_step(s, r) == from_buffer(s, b));
    if s.device_index < b.len() {
        let x = opencl_ok(b[s.device_index as int]);
        assert(a == Action::Item(x));
        assert(r == ReplyView::Pull);
        lemma_drive(s2, h, ReplyView::Pull, f1);
        assert(remaining(s, h) =~= seq![x] + remaining(s2, h));
    } else {
        assert(weight(s, h) == 2 + platforms_weight(h, s.platforms, pi + 1));
        assert(weight(next_platform(s), h) == 1 + platforms_weight(h, s.platforms, pi + 1));
        lemma_enter_next(s, h, f1);
        assert(b.skip(s.device_index as int) =~= Seq::<cl::DeviceId>::empty());
        assert(remaining(s, h) =~= remaining(next_platform(s), h));
    }
}

proof fn lemma_drive_pending(s: QueryView, h: HostModel, r: ReplyView, fuel: nat)
    requires
        agrees(s, h),
        answers(s, h, r),
        fuel >= fuel_for(s, h, r),
        s.cuda_index >= s.cuda_count,
        s.buffer is None,
        s.pending_count is Some,
    ensures
        drive(s, h, r, fuel) == remaining(s, h),
    decreases fuel, 0nat,
{
    let (s2, a) = query_step(s, r);
    let f1 = (fuel - 1) as nat;
    let pi = s.platform_index as int;
    let p = s.platforms[pi];
    let d = (h.devices)(p);
    let n = s.pending_count->Some_0;
    let ids = Call::ClDeviceIds(p, n);
    assert(query_step(s, ReplyView::Pull) == (s, Action::Call(ids)));
    if r == ReplyView::Pull {
        lemma_drive(s, h, host_reply(h, ids), f1);
    } else {
        let s3 = QueryView { buffer: Some(d), pending_count: None, ..s };
        assert(query_step(s, r) == from_buffer(s3, d));
        let x = opencl_ok(d[0]);
        assert(a == Action::Item(x));
        lemma_drive(s2, h, ReplyView::Pull, f1);
        assert(remaining(s, h) =~= seq![x] + remaining(s2, h));
    }
}

proof fn lemma_drive_fresh(s: QueryView, h: HostModel, r: ReplyView, fuel: nat)
    requires
        agrees(s, h),
        answers(s, h, r),
        fuel >= fuel_for(s, h, r),
        s.cuda_index >= s.cuda_count,
        s.platform_index < s.platforms.len(),
        s.buffer is None,
        s.pending_count is None,
    ensures
        drive(s, h, r, fuel) == remaining(s, h),
    decreases fuel, 0nat,
{
    let (s2, a) = query_step(s, r);
    let f1 = (fuel - 1) as nat;
    let pi = s.platform_index as int;
    let p = s.platforms[pi];
    let d = (h.devices)(p);
    assert(d.len() <= u32::MAX);
    let count = Call::ClDeviceCount(p);
    assert(query_step(s, ReplyView::Pull) == (s, Action::Call(count)));
    assert(platforms_weight(h, s.platforms, pi) == 4 + d.len() + platforms_weight(h, s.platforms, pi + 1));
    if r == ReplyView::Pull {
        lemma_drive(s, h, host_reply(h, count), f1);
    } else if d.len() == 0 {
        let s3 = QueryView { buffer: Some(Seq::empty()), ..s };
        assert(query_step(s, r) == from_buffer(s3, Seq::empty()));
        assert(next_platform(s3) == next_platform(s));
        assert(weight(next_platform(s), h) == 1 + platforms_weight(h, s.platforms, pi + 1));
        lemma_enter_next(s, h, f1);
        assert(d.map_values(|x: cl::DeviceId| opencl_ok(x)) =~= Seq::<Result<Device, Error>>::empty());
        assert(remaining(s, h) =~= remaining(next_platform(s), h));
    } else {
        let n = d.len() as u32;
        let ids = Call::ClDeviceIds(p, n);
        assert(a == Action::Call(ids));
        assert(query_step(s2, ReplyView::Pull) == (s2, Action::Call(ids)));
        lemma_drive(s2, h, host_reply(h, ids), f1);
    }
}

/// Enough steps for a whole pass against the model.
pub open spec fn pass_fuel(h: HostModel) -> nat {
    2 * h.cuda_devices.len() + platforms_weight(h, h.platforms, 0) + 10
}

/// The first vendor's devices that a fresh cursor with count `n` yields.
pub open spec fn cuda_part(h: HostModel, n: i32) -> Seq<Result<Device, Error>> {
    if 0 < n {
        h.cuda_devices.subrange(0, n as int).map_values(|d: cu::Device| cuda_ok(d))
    } else {
        Seq::empty()
    }
}

/// A cursor that has just finished its setup with the given platforms.
proof fn lemma_from_ready(t: QueryView, h: HostModel, fuel: nat)
    requires
        host_fits(h),
        t.phase == Phase::Enumerating,
        t.cuda_index == 0,
        0 <= t.cuda_count <= h.cuda_devices.len(),
        t.platform_index == 0,
        t.device_index == 0,
        t.buffer is None,
        t.pending_count is None,
        t.platforms.len() <= u32::MAX,
        fuel >= 2 * t.cuda_count + platforms_weight(h, t.platforms, 0) + 2,
    ensures
        drive(t, h, ReplyView::Pull, fuel) == cuda_part(h, t.cuda_count) + devices_from(h, t.platforms, 0),
{
    lemma_drive(t, h, ReplyView::Pull, fuel);
}

/// The second vendor's setup, from the reply to its loading on.
proof fn lemma_opencl_setup(t: QueryView, h: HostModel, fuel: nat)
    requires
        host_fits(h),
        t.phase == Phase::LoadOpenCl,
        t.cuda_index == 0,
        0 <= t.cuda_count <= h.cuda_devices.len(),
        t.platform_index == 0,
        t.device_index == 0,
        t.buffer is None,
        t.pending_count is None,
        t.platforms.len() == 0,
        fuel >= 2 * t.cuda_count + platforms_weight(h, h.platforms, 0) + 5,
    ensures
        drive(t, h, ReplyView::Loaded(true), fuel) == cuda_part(h, t.cuda_count) + devices_from(h, h.platforms, 0),
{
    let m = h.platforms.len() as u32;
    let t1 = QueryView { phase: Phase::CountPlatforms, ..t };
    assert(drive(t, h, ReplyView::Loaded(true), fuel) == drive(t1, h, ReplyView::Count(SUCCESS, m), (fuel - 1) as nat));
    if m == 0 {
        let t2 = QueryView { phase: Phase::Enumerating, ..t1 };
        assert(drive(t1, h, ReplyView::Count(SUCCESS, m), (fuel - 1) as nat) == drive(t2, h, ReplyView::Pull, (fuel - 2) as nat));
        assert(platforms_weight(h, t2.platforms, 0) == 0);
        lemma_from_ready(t2, h, (fuel - 2) as nat);
        assert(devices_from(h, t2.platforms, 0) == devices_from(h, h.platforms, 0));
    } else {
        let t2 = QueryView { phase: Phase::ListPlatforms(m), ..t1 };
        assert(drive(t1, h, ReplyView::Count(SUCCESS, m), (fuel - 1) as nat)
            == drive(t2, h, ReplyView::Platforms(SUCCESS, h.platforms), (fuel - 2) as nat));
        let t3 = QueryView { phase: Phase::Enumerating, platforms: h.platforms, ..t2 };
        assert(drive(t2, h, ReplyView::Platforms(SUCCESS, h.platforms), (fuel - 2) as nat)
            == drive(t3, h, ReplyView::Pull, (fuel - 3) as nat));
        lemma_from_ready(t3, h, (fuel - 3) as nat);
    }
}

/// A whole pass against drivers whose calls all succeed yields exactly the
/// first vendor's devices by ordinal (when it is requested), then each
/// platform's devices, platform after platform and in the platform's own
/// order (when the second vendor is requested), and nothing else: over the
/// first vendor alone it yields as many items as it has devices.
pub proof fn lemma_pass_yields(h: HostModel, backend: BackendApi, fuel: nat)
    requires
        host_fits(h),
        fuel >= pass_fuel(h),
    ensures
        drive(query_start(backend), h, ReplyView::Pull, fuel) == pass_items(h, backend),
        backend == BackendApi::Cuda ==> pass_items(h, backend).len() == h.cuda_devices.len(),
{
    let s0 = query_start(backend);
    let n = h.cuda_devices.len() as i32;
    let whole = h.cuda_devices.map_values(|d: cu::Device| cuda_ok(d));
    assert(cuda_part(h, n) =~= whole);
    assert(cuda_part(h, 0) =~= Seq::<Result<Device, Error>>::empty());
    if backend.includes_cuda() {
        assert(drive(s0, h, ReplyView::Pull, fuel) == drive(s0, h, ReplyView::Loaded(true), (fuel - 1) as nat));
        let s1 = QueryView { phase: Phase::InitCuda, ..s0 };
        assert(drive(s0, h, ReplyView::Loaded(true), (fuel - 1) as nat) == drive(s1, h, ReplyView::Status(SUCCESS), (fuel - 2) as nat));
        let s2 = QueryView { phase: Phase::CountCuda, ..s1 };
        assert(drive(s1, h, ReplyView::Status(SUCCESS), (fuel - 2) as nat)
            == drive(s2, h, ReplyView::CudaCount(SUCCESS, n), (fuel - 3) as nat));
        let s3 = QueryView { cuda_count: n, ..s2 };
        if backend.includes_opencl() {
            let s4 = QueryView { phase: Phase::LoadOpenCl, ..s3 };
            assert(drive(s2, h, ReplyView::CudaCount(SUCCESS, n), (fuel - 3) as nat)
                == drive(s4, h, ReplyView::Loaded(true), (fuel - 4) as nat));
            lemma_opencl_setup(s4, h, (fuel - 4) as nat);
        } else {
            let s4 = QueryView { phase: Phase::Enumerating, ..s3 };
            assert(drive(s2, h, ReplyView::CudaCount(SUCCESS, n), (fuel - 3) as nat)
                == drive(s4, h, ReplyView::Pull, (fuel - 4) as nat));
            assert(platforms_weight(h, s4.platforms, 0) == 0);
            lemma_from_ready(s4, h, (fuel - 4) as nat);
            assert(devices_from(h, s4.platforms, 0) == Seq::<Result<Device, Error>>::empty());
            assert(pass_items(h, backend) =~= whole);
        }
    } else {
        assert(drive(s0, h, ReplyView::Pull, fuel) == drive(s0, h, ReplyView::Loaded(true), (fuel - 1) as nat));
        lemma_opencl_setup(s0, h, (fuel - 1) as nat);
        assert(pass_items(h, backend) =~= Seq::<Result<Device, Error>>::empty() + devices_from(h, h.platforms, 0));
    }
}

} // verus!
