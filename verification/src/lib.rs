//! Safe, verified bookkeeping for OS resource handles.
//!
//! The library models the discipline a binding layer needs around raw OS
//! handles: typed handle values, RAII-style guards that own a release
//! obligation, a resource family that accounts for every acquisition and
//! release, and the two error-reporting conventions of the platform
//! (sentinel value plus last-error code, and status codes). The OS calls
//! themselves happen outside the library; every function here takes the raw
//! outcome of such a call as plain values and is verified to classify,
//! record and transform it correctly.

#![allow(non_snake_case)]
#![allow(non_camel_case_types)]

pub mod co;
pub mod comctl;
pub mod dshow;
pub mod family;
pub mod gdi;
pub mod guard;
pub mod gui;
pub mod handles;
pub mod kernel;
pub mod msg;
pub mod results;
pub mod shell;
pub mod structs;
pub mod user;
