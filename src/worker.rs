//! The engine's interface, and the requests and replies that pass between callers and the
//! worker's thread.

use vstd::prelude::*;
use std::time::Duration;
use crate::error::{message_of, Error};

verus! {

/// `serde_json`'s value, the payload that requests and replies carry.
#[verifier::external_type_specification]
#[verifier::external_body]
pub struct ExValue(serde_json::Value);

/// The identifier that an engine gives a module it has loaded.
pub type ModuleId = usize;

/// Options with which an engine is constructed.
pub struct DefaultWorkerOptions {
    /// The entrypoint to call where a module registers none.
    pub default_entrypoint: Option<String>,
    /// How long the engine lets one piece of code run.
    pub timeout: Duration,
}

/// Relies on Duration::default: a duration to start the options with.
#[verifier::external_body]
fn default_duration() -> Duration {
    Duration::default()
}

impl Default for DefaultWorkerOptions {
    fn default() -> (r: Self)
        ensures
            r.default_entrypoint is None,
    {
        DefaultWorkerOptions { default_entrypoint: None, timeout: default_duration() }
    }
}

/// A module to load: its file name and its source text.
#[derive(Clone, Debug)]
pub struct Module {
    pub filename: String,
    pub contents: String,
}

impl Module {
    pub fn new(filename: &str, contents: &str) -> (r: Module)
        ensures
            r.filename@ == filename@,
            r.contents@ == contents@,
    {
        Module { filename: filename.to_owned(), contents: contents.to_owned() }
    }
}

/// The operations of an engine that a worker hosts on its own thread.
///
/// Each operation is described by a relation between the engine, the operation's inputs and its
/// outcome; an engine states, by defining the relation, what its operations return.
pub trait CommonWorker: Sized {
    /// The engine's own handle on a module it has loaded.
    type ModuleHandle;

    /// `r` is a possible outcome of constructing the engine from `options`.
    spec fn initialized(options: DefaultWorkerOptions, r: Result<Self, Error>) -> bool;

    /// The identifier of a loaded module.
    spec fn id_of(handle: Self::ModuleHandle) -> ModuleId;

    /// `r` is a possible outcome of evaluating `code` in this engine.
    spec fn evaluated(&self, code: Seq<char>, r: Result<serde_json::Value, Error>) -> bool;

    /// `r` is a possible outcome of loading `module` as the main module.
    spec fn loaded_main(&self, module: Module, r: Result<Self::ModuleHandle, Error>) -> bool;

    /// `r` is a possible outcome of loading `module` as a side module.
    spec fn loaded_side(&self, module: Module, r: Result<Self::ModuleHandle, Error>) -> bool;

    /// `r` is a possible outcome of calling the entrypoint of `handle` with `args`.
    spec fn entrypoint_called(
        &self,
        handle: Self::ModuleHandle,
        args: Seq<serde_json::Value>,
        r: Result<serde_json::Value, Error>,
    ) -> bool;

    /// `r` is a possible outcome of calling the function `name` in `handle`'s module, or in
    /// the global scope where `handle` is `None`, with `args`.
    spec fn function_called(
        &self,
        handle: Option<Self::ModuleHandle>,
        name: Seq<char>,
        args: Seq<serde_json::Value>,
        r: Result<serde_json::Value, Error>,
    ) -> bool;

    /// `r` is a possible outcome of reading the value `name` from `handle`'s module, or from
    /// the global scope where `handle` is `None`.
    spec fn value_read(
        &self,
        handle: Option<Self::ModuleHandle>,
        name: Seq<char>,
        r: Result<serde_json::Value, Error>,
    ) -> bool;

    /// Constructs the engine.
    fn init_runtime(options: DefaultWorkerOptions) -> (r: Result<Self, Error>)
        ensures
            Self::initialized(options, r),
    ;

    /// The identifier of a loaded module.
    fn module_id(handle: &Self::ModuleHandle) -> (r: ModuleId)
        ensures
            r == Self::id_of(*handle),
    ;

    fn eval(&mut self, code: &str) -> (r: Result<serde_json::Value, Error>)
        ensures
            old(self).evaluated(code@, r),
    ;

    fn load_main_module(&mut self, module: &Module) -> (r: Result<Self::ModuleHandle, Error>)
        ensures
            old(self).loaded_main(*module, r),
    ;

    fn load_module(&mut self, module: &Module) -> (r: Result<Self::ModuleHandle, Error>)
        ensures
            old(self).loaded_side(*module, r),
    ;

    fn call_entrypoint(
        &mut self,
        handle: &Self::ModuleHandle,
        args: &Vec<serde_json::Value>,
    ) -> (r: Result<serde_json::Value, Error>)
        ensures
            old(self).entrypoint_called(*handle, args@, r),
    ;

    fn call_function(
        &mut self,
        handle: Option<&Self::ModuleHandle>,
        name: &str,
        args: &Vec<serde_json::Value>,
    ) -> (r: Result<serde_json::Value, Error>)
        ensures
            old(self).function_called(
                match handle {
                    Some(h) => Some(*h),
                    None => None,
                },
                name@,
                args@,
                r,
            ),
    ;

    fn get_value(&mut self, handle: Option<&Self::ModuleHandle>, name: &str) -> (r: Result<
        serde_json::Value,
        Error,
    >)
        ensures
            old(self).value_read(
                match handle {
                    Some(h) => Some(*h),
                    None => None,
                },
                name@,
                r,
            ),
    ;
}

} // verus!

verus! {

/// A request to the worker.
pub enum DefaultWorkerQuery {
    /// Stops the worker.
    Stop,
    /// Evaluates a piece of code.
    Eval(String),
    /// Loads a module as the main module.
    LoadMainModule(Module),
    /// Loads a module as a side module.
    LoadModule(Module),
    /// Calls the entrypoint of a loaded module.
    CallEntrypoint(ModuleId, Vec<serde_json::Value>),
    /// Calls a function, in a loaded module or in the global scope.
    CallFunction(Option<ModuleId>, String, Vec<serde_json::Value>),
    /// Reads a value, from a loaded module or from the global scope.
    GetValue(Option<ModuleId>, String),
}

/// A reply from the worker.
pub enum DefaultWorkerResponse {
    /// A value that the engine produced.
    Value(serde_json::Value),
    /// The identifier of a module that was loaded.
    ModuleId(ModuleId),
    /// An acknowledgement with nothing more to say.
    Ack,
    /// The request failed.
    Error(Error),
}

/// `r` has the shape that a reply to `q` must have.
pub open spec fn answers(q: DefaultWorkerQuery, r: DefaultWorkerResponse) -> bool {
    match q {
        DefaultWorkerQuery::Stop => r is Ack,
        DefaultWorkerQuery::LoadMainModule(_) => r is ModuleId || r is Error,
        DefaultWorkerQuery::LoadModule(_) => r is ModuleId || r is Error,
        _ => r is Value || r is Error,
    }
}

/// The text of the error for a module identifier that names no loaded module.
pub const MODULE_NOT_FOUND: &'static str = "module not found";

/// The text of the error for a reply of the wrong shape.
pub const UNEXPECTED_RESPONSE: &'static str = "unexpected response from the worker";

/// The error for a module identifier that names no loaded module.
pub open spec fn is_module_not_found(e: Error) -> bool {
    &&& e is Engine
    &&& message_of(e) == MODULE_NOT_FOUND@
}

pub fn module_not_found() -> (r: Error)
    ensures
        is_module_not_found(r),
{
    Error::Engine(MODULE_NOT_FOUND.to_owned())
}

/// A reply that carries a value: the value; an error: that error; anything else is a protocol error.
pub fn expect_value(response: DefaultWorkerResponse) -> (r: Result<serde_json::Value, Error>)
    ensures
        response is Value ==> r == Ok::<serde_json::Value, Error>(response->Value_0),
        response is Error ==> r == Err::<serde_json::Value, Error>(response->Error_0),
        !(response is Value || response is Error) ==> r is Err && r->Err_0 is Protocol
            && message_of(r->Err_0) == UNEXPECTED_RESPONSE@,
{
    match response {
        DefaultWorkerResponse::Value(v) => Ok(v),
        DefaultWorkerResponse::Error(e) => Err(e),
        _ => Err(Error::Protocol(UNEXPECTED_RESPONSE.to_owned())),
    }
}

/// A reply that carries a module identifier: the identifier; an error: that error; anything else
/// is a protocol error.
pub fn expect_module_id(response: DefaultWorkerResponse) -> (r: Result<ModuleId, Error>)
    ensures
        response is ModuleId ==> r == Ok::<ModuleId, Error>(response->ModuleId_0),
        response is Error ==> r == Err::<ModuleId, Error>(response->Error_0),
        !(response is ModuleId || response is Error) ==> r is Err && r->Err_0 is Protocol
            && message_of(r->Err_0) == UNEXPECTED_RESPONSE@,
{
    match response {
        DefaultWorkerResponse::ModuleId(id) => Ok(id),
        DefaultWorkerResponse::Error(e) => Err(e),
        _ => Err(Error::Protocol(UNEXPECTED_RESPONSE.to_owned())),
    }
}

/// A reply that acknowledges: `Ok`; an error: that error; anything else is a protocol error.
pub fn expect_ack(response: DefaultWorkerResponse) -> (r: Result<(), Error>)
    ensures
        response is Ack ==> r is Ok,
        response is Error ==> r == Err::<(), Error>(response->Error_0),
        !(response is Ack || response is Error) ==> r is Err && r->Err_0 is Protocol
            && message_of(r->Err_0) == UNEXPECTED_RESPONSE@,
{
    match response {
        DefaultWorkerResponse::Ack => Ok(()),
        DefaultWorkerResponse::Error(e) => Err(e),
        _ => Err(Error::Protocol(UNEXPECTED_RESPONSE.to_owned())),
    }
}

} // verus!
