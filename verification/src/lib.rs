//! Switching CPU execution state between independent call stacks inside one
//! operating-system thread: the register-state handle, the call-frame
//! layout of a fresh flow, the register transfers of a switch, and the
//! guard-paged stack region a flow runs on.

pub mod context;
pub mod detail;
pub mod stack;

pub use context::Context;

pub use stack::Stack;
