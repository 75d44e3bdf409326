//! One-off use of an engine, outside any worker.

use vstd::prelude::*;
use crate::error::{message_of, Error};
use crate::worker::{CommonWorker, DefaultWorkerOptions, Module, ModuleId};

verus! {

/// The file name under which `validate` loads the code it checks.
pub const VALIDATION_FILENAME: &'static str = "test.js";

/// A value as an argument for the engine.
pub fn into_arg<A>(value: A) -> serde_json::Value where serde_json::Value: From<A> {
    serde_json::Value::from(value)
}

/// A fresh engine with the default options; a failure is an initialization error with the
/// engine's message.
pub fn fresh_runtime<W: CommonWorker>() -> (r: Result<W, Error>)
    ensures
        exists|o: DefaultWorkerOptions, e: Result<W, Error>|
            o.default_entrypoint is None && #[trigger] W::initialized(o, e) && fresh_from(e, r),
{
    let options = DefaultWorkerOptions::default();
    let ghost o = options;
    let built = W::init_runtime(options);
    let ghost e = built;
    let r = match built {
        Ok(runtime) => Ok(runtime),
        Err(x) => Err(Error::Init(x.into_message())),
    };
    assert(o.default_entrypoint is None && W::initialized(o, e) && fresh_from(e, r));
    r
}

/// `r` is what `fresh_runtime` gives for the construction outcome `e`: the engine itself, or an
/// initialization error with the engine's message.
pub open spec fn fresh_from<W>(e: Result<W, Error>, r: Result<W, Error>) -> bool {
    match e {
        Ok(rt) => r == Ok::<W, Error>(rt),
        Err(x) => r is Err && r->Err_0 is Init && message_of(r->Err_0) == message_of(x),
    }
}

/// Evaluates a piece of code in a fresh engine, whose effects do not outlive the call.
pub fn evaluate<W: CommonWorker>(javascript: &str) -> (r: Result<serde_json::Value, Error>)
    ensures
        (r is Err && r->Err_0 is Init) || exists|rt: W| #[trigger] rt.evaluated(javascript@, r),
{
    match fresh_runtime::<W>() {
        Ok(mut runtime) => runtime.eval(javascript),
        Err(e) => Err(e),
    }
}

/// What `validate` answers for the outcome of loading the code as a module: it loaded, so it is
/// valid; the engine refused it, so it is not; any other failure is passed on.
pub open spec fn validation_of<H>(loaded: Result<H, Error>) -> Result<bool, Error> {
    match loaded {
        Ok(_) => Ok(true),
        Err(Error::Engine(_)) => Ok(false),
        Err(e) => Err(e),
    }
}

pub fn validation_result<H>(loaded: Result<H, Error>) -> (r: Result<bool, Error>)
    ensures
        r == validation_of(loaded),
{
    match loaded {
        Ok(_) => Ok(true),
        Err(Error::Engine(_)) => Ok(false),
        Err(e) => Err(e),
    }
}

/// Whether a piece of code is valid: it is loaded as a module into a fresh engine.
pub fn validate<W: CommonWorker>(javascript: &str) -> (r: Result<bool, Error>)
    ensures
        r is Err ==> !(r->Err_0 is Engine),
{
    match fresh_runtime::<W>() {
        Ok(mut runtime) => {
            let module = Module::new(VALIDATION_FILENAME, javascript);
            let loaded = runtime.load_module(&module);
            validation_result(loaded)
        },
        Err(e) => Err(e),
    }
}

/// An engine of its own with one module loaded into it.
pub struct ModuleWrapper<W: CommonWorker> {
    pub runtime: W,
    pub module: W::ModuleHandle,
}

impl<W: CommonWorker> ModuleWrapper<W> {
    /// The identifier of the loaded module.
    pub fn module_id(&self) -> ModuleId {
        W::module_id(&self.module)
    }
}

/// Loads a module into a fresh engine.
pub fn import<W: CommonWorker>(module: &Module) -> (r: Result<ModuleWrapper<W>, Error>) {
    match fresh_runtime::<W>() {
        Ok(mut runtime) => match runtime.load_module(module) {
            Ok(handle) => Ok(ModuleWrapper { runtime, module: handle }),
            Err(e) => Err(e),
        },
        Err(e) => Err(e),
    }
}

} // verus!
