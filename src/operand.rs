//! The types of the operands that a compute graph hands to a device.
use vstd::prelude::*;

verus! {

/// The scalar type of one channel.
#[derive(Clone, Copy, Debug, PartialEq, Eq, Structural)]
pub enum ScalarType {
    F32,
    F64,
    U8,
    U16,
    U32,
    U64,
    I8,
    I16,
    I32,
    I64,
}

/// One element of an operand: a number of channels of one scalar type.
#[derive(Clone, Copy, Debug, PartialEq, Eq, Structural)]
pub struct Element {
    pub channels: usize,
    pub type_: ScalarType,
}

impl Element {
    /// The number of channels of the element.
    pub fn channels(&self) -> (r: usize)
        ensures
            r == self.channels,
    {
        self.channels
    }
}

/// The type of an operand: a two- or three-dimensional tensor of elements, or
/// a scalar.
#[derive(Clone, Copy, Debug, PartialEq, Eq, Structural)]
pub enum GeneralType {
    Tensor2(u32, u32, Element),
    Tensor3(u32, u32, u32, Element),
    Scalar(ScalarType),
}

} // verus!
