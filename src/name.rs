//! Device names: the two vendors' name queries and the decoding of the
//! NUL-terminated text that they fill in.
use vstd::prelude::*;
use vstd::utf8::{decode_utf8, encode_utf8, encode_utf8_decode_utf8, valid_utf8};
use crate::backend::{err, Call, Device, Error, ErrorKind, NativeDevice, Reply, ReplyView, CUDA_NAME_CAPACITY, SUCCESS};

verus! {

/// Relies on `String::from_utf8`: it succeeds exactly on valid UTF-8, and the
/// string it returns holds the given bytes.
#[verifier::external_body]
fn utf8_string(bytes: Vec<u8>) -> (r: Option<String>)
    ensures
        r is Some <==> valid_utf8(bytes@),
        r is Some ==> encode_utf8(r->Some_0@) == bytes@,
{
    String::from_utf8(bytes).ok()
}

/// `p` is the text of a C string buffer `b`: the bytes before its first NUL,
/// or all of it when it holds none.
pub open spec fn is_c_prefix(b: Seq<u8>, p: Seq<u8>) -> bool {
    &&& p.len() <= b.len()
    &&& p == b.take(p.len() as int)
    &&& forall|j: int| 0 <= j < p.len() ==> p[j] != 0
    &&& p.len() < b.len() ==> b[p.len() as int] == 0
}

/// The bytes of a C string buffer before its first NUL.
pub fn c_string_bytes(buffer: &Vec<u8>) -> (r: Vec<u8>)
    ensures
        is_c_prefix(buffer@, r@),
{
    let mut r: Vec<u8> = Vec::new();
    let mut i: usize = 0;
    while i < buffer.len() && buffer[i] != 0
        invariant
            i <= buffer.len(),
            r@ == buffer@.take(i as int),
            forall|j: int| 0 <= j < i ==> buffer@[j] != 0,
        decreases buffer.len() - i,
    {
        r.push(buffer[i]);
        i = i + 1;
    }
    r
}

/// The text of a C string buffer: the bytes before its first NUL.
pub open spec fn c_text(b: Seq<u8>) -> Seq<u8> {
    choose|p: Seq<u8>| is_c_prefix(b, p)
}

/// The name held by a C string buffer, when its text is valid UTF-8.
pub open spec fn name_text(b: Seq<u8>) -> Result<Seq<char>, Error> {
    if valid_utf8(c_text(b)) {
        Ok(decode_utf8(c_text(b)))
    } else {
        Err(err(ErrorKind::InvalidNameFormat))
    }
}

pub open spec fn text_matches(r: Result<String, Error>, t: Result<Seq<char>, Error>) -> bool {
    match (r, t) {
        (Ok(s), Ok(u)) => s@ == u,
        (Err(e), Err(f)) => e == f,
        _ => false,
    }
}

/// The text of a C string buffer is unique.
proof fn lemma_c_text(b: Seq<u8>, p: Seq<u8>)
    requires
        is_c_prefix(b, p),
    ensures
        c_text(b) == p,
{
    let q = c_text(b);
    if q.len() < p.len() {
        assert(p[q.len() as int] == b[q.len() as int]);
    } else if p.len() < q.len() {
        assert(q[p.len() as int] == b[p.len() as int]);
    }
    assert(q =~= p);
}

/// Interprets a buffer filled by a vendor's name query as text.
pub fn text_from_c_buffer(buffer: &Vec<u8>) -> (r: Result<String, Error>)
    ensures
        text_matches(r, name_text(buffer@)),
{
    let p = c_string_bytes(buffer);
    proof {
        lemma_c_text(buffer@, p@);
    }
    match utf8_string(p) {
        Some(s) => {
            proof {
                encode_utf8_decode_utf8(s@);
            }
            Ok(s)
        },
        None => Err(Error { kind: ErrorKind::InvalidNameFormat }),
    }
}

/// Where a name query stands.
#[derive(Clone, Copy, Debug, PartialEq, Eq, Structural)]
pub enum NamePhase {
    Start,
    /// Waiting for the first vendor's fixed-size buffer.
    CudaName,
    /// Waiting for the byte length of the second vendor's name.
    ClLength,
    /// Waiting for the second vendor's buffer of the given length.
    ClName(usize),
    Done,
}

/// What a name query asks for, or ends with, after one step.
pub enum NameAction {
    /// Perform this native call and report its outcome.
    Call(Call),
    /// The device's name, or why it could not be had.
    Named(Result<String, Error>),
    /// The query ended at an earlier step.
    Over,
}

/// The mathematical value of a [`NameAction`].
pub enum NameActionView {
    Call(Call),
    Named(Result<Seq<char>, Error>),
    Over,
}

impl View for NameAction {
    type V = NameActionView;

    open spec fn view(&self) -> NameActionView {
        match self {
            NameAction::Call(c) => NameActionView::Call(*c),
            NameAction::Named(Ok(s)) => NameActionView::Named(Ok(s@)),
            NameAction::Named(Err(e)) => NameActionView::Named(Err(*e)),
            NameAction::Over => NameActionView::Over,
        }
    }
}

/// A live query of one device's name.
pub struct NameQuery {
    pub device: Device,
    pub phase: NamePhase,
}

pub open spec fn name_start(device: Device) -> NameQuery {
    NameQuery { device, phase: NamePhase::Start }
}

/// The outcome of a name query whose buffer came back with the given status.
pub open spec fn named(st: i32, b: Seq<u8>, failure: ErrorKind) -> NameActionView {
    if st != SUCCESS {
        NameActionView::Named(Err(err(failure)))
    } else {
        NameActionView::Named(name_text(b))
    }
}

pub open spec fn name_step(s: NameQuery, r: ReplyView) -> (NameQuery, NameActionView) {
    let done = NameQuery { phase: NamePhase::Done, ..s };
    match (s.phase, s.device.native) {
        (NamePhase::Start, NativeDevice::Cuda(d)) => (
            NameQuery { phase: NamePhase::CudaName, ..s },
            NameActionView::Call(Call::CuDeviceGetName(d, CUDA_NAME_CAPACITY)),
        ),
        (NamePhase::Start, NativeDevice::OpenCl(id)) => (
            NameQuery { phase: NamePhase::ClLength, ..s },
            NameActionView::Call(Call::ClDeviceNameLength(id)),
        ),
        (NamePhase::CudaName, NativeDevice::Cuda(d)) => match r {
            ReplyView::Name(st, b) => (done, named(st, b, ErrorKind::UnableToGetCudaDeviceName)),
            _ => (s, NameActionView::Call(Call::CuDeviceGetName(d, CUDA_NAME_CAPACITY))),
        },
        (NamePhase::ClLength, NativeDevice::OpenCl(id)) => match r {
            ReplyView::Length(st, n) => if st != SUCCESS {
                (done, NameActionView::Named(Err(err(ErrorKind::UnableToGetOpenClDeviceName))))
            } else {
                (NameQuery { phase: NamePhase::ClName(n), ..s }, NameActionView::Call(Call::ClDeviceName(id, n)))
            },
            _ => (s, NameActionView::Call(Call::ClDeviceNameLength(id))),
        },
        (NamePhase::ClName(n), NativeDevice::OpenCl(id)) => match r {
            ReplyView::Name(st, b) => (done, named(st, b, ErrorKind::UnableToGetOpenClDeviceName)),
            _ => (s, NameActionView::Call(Call::ClDeviceName(id, n))),
        },
        _ => (done, NameActionView::Over),
    }
}

impl Device {
    /// Starts querying the device's name; the name is asked of the driver
    /// anew on every query.
    pub fn name(&self) -> (r: NameQuery)
        ensures
            r == name_start(*self),
    {
        NameQuery { device: *self, phase: NamePhase::Start }
    }
}

impl NameQuery {
    fn finish(&mut self, st: i32, b: &Vec<u8>, failure: ErrorKind) -> (a: NameAction)
        ensures
            a@ == named(st, b@, failure),
            *final(self) == (NameQuery { phase: NamePhase::Done, ..*old(self) }),
    {
        self.phase = NamePhase::Done;
        if st != SUCCESS {
            NameAction::Named(Err(Error { kind: failure }))
        } else {
            NameAction::Named(text_from_c_buffer(b))
        }
    }

    /// Advances the query by one step, given the outcome of the native call
    /// that it last asked for (or [`Reply::Pull`]).
    pub fn step(&mut self, reply: Reply) -> (a: NameAction)
        ensures
            (*final(self), a@) == name_step(*old(self), reply@),
    {
        match (self.phase, self.device.native) {
            (NamePhase::Start, NativeDevice::Cuda(d)) => {
                self.phase = NamePhase::CudaName;
                NameAction::Call(Call::CuDeviceGetName(d, CUDA_NAME_CAPACITY))
            },
            (NamePhase::Start, NativeDevice::OpenCl(id)) => {
                self.phase = NamePhase::ClLength;
                NameAction::Call(Call::ClDeviceNameLength(id))
            },
            (NamePhase::CudaName, NativeDevice::Cuda(d)) => match reply {
                Reply::Name(st, b) => self.finish(st, &b, ErrorKind::UnableToGetCudaDeviceName),
                _ => NameAction::Call(Call::CuDeviceGetName(d, CUDA_NAME_CAPACITY)),
            },
            (NamePhase::ClLength, NativeDevice::OpenCl(id)) => match reply {
                Reply::Length(st, n) => if st != SUCCESS {
                    self.phase = NamePhase::Done;
                    NameAction::Named(Err(Error { kind: ErrorKind::UnableToGetOpenClDeviceName }))
                } else {
                    self.phase = NamePhase::ClName(n);
                    NameAction::Call(Call::ClDeviceName(id, n))
                },
                _ => NameAction::Call(Call::ClDeviceNameLength(id)),
            },
            (NamePhase::ClName(n), NativeDevice::OpenCl(id)) => match reply {
                Reply::Name(st, b) => self.finish(st, &b, ErrorKind::UnableToGetOpenClDeviceName),
                _ => NameAction::Call(Call::ClDeviceName(id, n)),
            },
            _ => {
                self.phase = NamePhase::Done;
                NameAction::Over
            },
        }
    }
}

} // verus!
