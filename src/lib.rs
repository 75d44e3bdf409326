//! The core of a worker that hosts an engine on a thread of its own: the requests and replies
//! that pass between callers and that thread, the loop that serves requests one at a time in
//! the order they arrive, the handshake that reports whether the engine could be constructed,
//! and the cleanup of a panic's message into a one-line summary.

pub mod dispatcher;
pub mod error;
pub mod lifecycle;
pub mod text;
pub mod utilities;
pub mod worker;

pub use dispatcher::{handle_query, DispatchAction, Dispatcher};
pub use error::Error;
pub use lifecycle::{handshake_outcome, join_outcome, sanitize_panic_message};
pub use utilities::{evaluate, import, into_arg, validate, validation_result, ModuleWrapper};
pub use worker::{
    expect_ack, expect_module_id, expect_value, CommonWorker, DefaultWorkerOptions,
    DefaultWorkerQuery, DefaultWorkerResponse, Module, ModuleId,
};
