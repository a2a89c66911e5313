//! An image proxy: a domain policy gate, a bounded fetch state machine, and a
//! decode / resize / encode pipeline with its response assembly.
pub mod fetch;
pub mod glob;
pub mod media;
pub mod pipeline;
pub mod policy;
pub mod request_context;
pub mod text;
