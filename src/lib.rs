//! Dynamically loaded native bindings and a two-vendor compute device layer.
//!
//! The binding generator turns a declarative list of native signatures into
//! the source text of a loader and a typed call surface.  The device layer
//! enumerates devices, queries their names and opens execution contexts for
//! two vendor compute interfaces.  Every native call is described by a value
//! of [`backend::Call`]; the caller performs it and reports the outcome as a
//! [`backend::Reply`], so that all decisions are made here, in verified code.
pub mod handle;
pub mod cu;
pub mod cl;
pub mod backend;
pub mod query;
pub mod engine;
pub mod name;
pub mod text;
pub mod bindgen;
pub mod dynamic_library;
pub mod literal;
pub mod operand;
pub mod pass;

pub use backend::{BackendApi, Device, Error};
pub use engine::Engine;
pub use query::QueryDeviceIter;
