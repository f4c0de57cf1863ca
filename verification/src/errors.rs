//! The single tagged error type surfaced to the caller.
//!
//! Every stage of an invocation fails with exactly one of these kinds; a
//! failure short-circuits all later stages and is never retried.

use vstd::prelude::*;

verus! {

/// One error value per failed invocation, carrying enough structure to tell a
/// configuration mistake from a script-authored failure from a marshalling
/// limitation.
#[derive(Debug, Clone)]
pub enum BridgeError {
    /// Reconfiguration was attempted with different flags after the engine
    /// configuration had already been applied.
    EngineAlreadyConfigured,
    /// Permission-like tokens trail the script path while no permission was
    /// otherwise recognized: the caller's intent is ambiguous, so the bridge
    /// fails closed instead of running fully sandboxed by accident.
    AmbiguousPermissionIntent,
    /// Engine initialization or module pre-registration failed.
    WorkerCreation(String),
    /// Module resolution failed or the module's top-level code threw; the
    /// worker is unusable and no function lookup takes place.
    ModuleEvaluation(String),
    /// The named global is missing from the module's scope or is not callable.
    FunctionNotFound(String),
    /// The caller-supplied structured argument cannot be represented in the
    /// engine's value model.
    ArgumentMarshal,
    /// The invoked function threw; carries the thrown value's message and its
    /// diagnostic form.
    ScriptThrow(String, String),
    /// The function's return value cannot be represented back as a structured
    /// value.
    ResultMarshal,
}

/// The mathematical shape of a [`BridgeError`].
pub enum ErrorModel {
    EngineAlreadyConfigured,
    AmbiguousPermissionIntent,
    WorkerCreation(Seq<char>),
    ModuleEvaluation(Seq<char>),
    FunctionNotFound(Seq<char>),
    ArgumentMarshal,
    ScriptThrow(Seq<char>, Seq<char>),
    ResultMarshal,
}

impl View for BridgeError {
    type V = ErrorModel;

    open spec fn view(&self) -> ErrorModel {
        match self {
            BridgeError::EngineAlreadyConfigured => ErrorModel::EngineAlreadyConfigured,
            BridgeError::AmbiguousPermissionIntent => ErrorModel::AmbiguousPermissionIntent,
            BridgeError::WorkerCreation(m) => ErrorModel::WorkerCreation(m@),
            BridgeError::ModuleEvaluation(m) => ErrorModel::ModuleEvaluation(m@),
            BridgeError::FunctionNotFound(n) => ErrorModel::FunctionNotFound(n@),
            BridgeError::ArgumentMarshal => ErrorModel::ArgumentMarshal,
            BridgeError::ScriptThrow(m, d) => ErrorModel::ScriptThrow(m@, d@),
            BridgeError::ResultMarshal => ErrorModel::ResultMarshal,
        }
    }
}

impl BridgeError {
    /// Corrective guidance for an ambiguous permission grant: permissions must
    /// be granted before the script argument, or they are consumed as script
    /// arguments instead.
    pub fn guidance(&self) -> (r: &'static str)
        ensures
            self is AmbiguousPermissionIntent ==> r@.len() > 0,
    {
        match self {
            BridgeError::AmbiguousPermissionIntent => {
                proof {
                    reveal_strlit(
                        "Permission flags have likely been set after the script argument; grant permissions before the script argument instead.",
                    );
                }
                "Permission flags have likely been set after the script argument; grant permissions before the script argument instead."
            },
            _ => "",
        }
    }
}

} // verus!
