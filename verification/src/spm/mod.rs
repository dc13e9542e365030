//! Master, client and scheduling.

pub mod args;
pub mod channel;
pub mod client;
pub mod client_calls;
pub mod client_error;
pub mod client_laws;
pub mod context;
pub mod context_calls;
pub mod engine;
pub mod engine_calls;
pub mod engine_laws;
pub mod generation;
pub mod generation_calls;
pub mod json;
pub mod master;
pub mod master_calls;
pub mod master_laws;
pub mod profile;
pub mod proto;
pub mod proto_calls;
pub mod proto_debug;
pub mod scheduler;
pub mod scheduler_calls;
pub mod scheduler_laws;
pub mod settings;

use vstd::prelude::*;

verus! {

/// Identifies one inference session. Zero stands for the shared base
/// connection, which belongs to no session.
pub type SessionId = u64;

/// Determines if we run in master or worker mode.
#[derive(Debug, Clone, Copy, PartialEq, Eq, Structural)]
pub enum Mode {
    Master,
    Worker,
}

impl Default for Mode {
    fn default() -> (res: Self)
        ensures
            res == Mode::Master,
    {
        Mode::Master
    }
}

} // verus!
