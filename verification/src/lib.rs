//! Control plane for a single long-lived worker that exclusively owns a
//! swappable in-memory model.  The worker drains a command channel, executes
//! lifecycle transitions (load, unload, query, subscribe) one at a time, and
//! reports through per-request reply channels and subscription feeds.

pub mod lifecycle;
pub(crate) mod channel;
pub mod worker;
pub mod facade;
pub mod api;

pub use facade::info_stream_tick;
pub use facade::request_info;
pub use facade::request_load;
pub use facade::request_load_unconfirmed;
pub use facade::request_unload;
pub use facade::try_request_info;
pub use lifecycle::Event;
pub use lifecycle::ModelMeta;
pub use lifecycle::ReloadRequest;
pub use lifecycle::RuntimeInfo;
pub use lifecycle::WorkerState;
pub use worker::ThreadRequest;
pub use worker::Worker;
