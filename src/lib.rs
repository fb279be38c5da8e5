//! Conflict tracking and blocking for a software transactional memory: the log
//! entry that one transaction attempt keeps per variable, and the control block
//! that a retrying transaction waits on.

pub mod control_block;
pub mod log_var;

pub use control_block::{BlockState, ControlBlock, WaitStep, DEFAULT_PARK_TIMEOUT_MS};
pub use log_var::LogVar;
