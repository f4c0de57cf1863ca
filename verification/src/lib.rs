//! A blocking embedding bridge around a sandboxed script engine.
//!
//! The bridge drives one invocation through a fixed lifecycle: configure the
//! engine once per process, build an immutable permission grant set, create a
//! single-use worker bound to one module, run the module's top-level code to
//! completion, then call one named global function with a structured argument
//! and hand its structured return value back to the caller.
//!
//! This crate holds the verified core of that lifecycle: the structured value
//! model and its marshalling in both directions, engine flag merging with
//! initialize-once semantics, the permission ambiguity policy, and the
//! invocation state machine that orders the engine-side steps. The engine
//! itself is driven by an unverified host shell that performs each requested
//! action and reports the outcome back as an event.

pub mod errors;
pub mod flags;
pub mod permissions;
pub mod pipeline;
pub mod value;
