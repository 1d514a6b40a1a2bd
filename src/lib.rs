//! High-level bindings to Lua 5.3: the stack-discipline core.
//!
//! Lua exposes its whole API through one value stack. Every object here that
//! holds stack slots (a [`call::Caller`] before the call, the
//! [`call::ReturnValues`] after it) keeps an exact account of them in a
//! [`thread::Thread`], so that each path (success, failure, or giving up
//! before the call) leaves the stack as deep as it was before.
//!
//! The host owns the `lua_State` and performs each operation through the C
//! API; it hands the outcome (a status code, a type code, the types of the
//! results) to the methods here, which decide what it means and how many
//! slots the host must pop.

pub mod call;
pub mod error;
pub mod thread;
pub mod util;
pub mod value;
pub mod version;

pub use error::{Error, ErrorKind, LuaResult};
pub use thread::Thread;
