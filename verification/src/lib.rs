//! A COM-style object-model runtime: capability identifiers with their
//! canonical text encoding, result codes, reference-counted object envelopes
//! with strong and weak tickets, owning and weak handles, and the
//! identifier-keyed capability query that walks an interface-inheritance
//! chain.
#![allow(non_snake_case)]

pub mod guid;
pub mod iface;
pub mod object;
pub mod refcount;
pub mod com_ptr;
pub mod hresult;
