//! A client-side credential exchange over an opaque transport, and an
//! error-domain registry whose values can cross a foreign-function boundary.

pub mod errcode;
pub mod exchange;
pub mod ffi;
