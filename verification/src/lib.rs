//! Client-side core of an object-based runtime ABI.
//!
//! All memory in the system is backed by persistent objects named by 128-bit
//! IDs. This crate verifies the client-side protocol around that idea:
//!
//! - the packed error word shared with the runtime boundary and its typed
//!   error taxonomy ([`error`]);
//! - object IDs and their lossless split into register-sized halves, the
//!   mapping and protection flag sets, and the object metadata layout
//!   ([`object`], [`create`]);
//! - the Foreign Object Table (FOT), the per-object table of cross-object
//!   references with its one-way entry state machine ([`fot`]);
//! - the reference-counted object handle lifecycle: cloning, dropping, and
//!   the release of a mapping exactly once, when the last handle goes away
//!   ([`runtime`]).
//!
//! The runtime boundary itself (the kernel or runtime that performs the
//! actual mapping) is out of scope; [`runtime::Runtime`] is the explicit
//! model of the client-visible part of its state, against which the handle
//! protocol is stated and proved.

pub mod create;
pub mod error;
pub mod fot;
pub mod object;
pub mod runtime;
