//! Runtime core of a sandbox host that gives guest programs a small graphics API.
//!
//! The guest reaches the host through a fixed set of entry points that take
//! integers only. Everything those integers refer to is read out of guest
//! memory with bounds checks, resources are kept in append-only tables, and
//! the work of one frame is decided by a state machine whose output is a list
//! of commands for the graphics device.

pub mod error;
pub mod marshal;
pub mod reflect;
pub mod shader;
pub mod command;
pub mod system;
pub mod gpu;
pub mod surface;
pub mod session;
pub mod driver;
pub mod glsl;
pub mod order;
