//! Control plane of a distributed, layer-sharded inference system.
//!
//! The crate holds what decides: which request runs next, which worker lane a
//! session uses, which message a batch of layers becomes, which options make a
//! valid start. Sockets, tensors and model weights stay with the caller, who
//! performs the actions these functions return and reports what came of them.

pub mod models;
pub mod spm;
pub mod text;
pub mod text_calls;
