//! Client side of an out-of-process macro expander.
//!
//! A worker process expands macros; this library holds the logic around it:
//! the requests and responses exchanged with the worker (`msg`), the decisions
//! of the loop that serves calls and restarts the worker (`supervisor`), the
//! submission of a call and what its caller is given (`broker`), and the
//! adapters through which one macro of a library is invoked (`expander`).
use vstd::prelude::*;

pub mod broker;
pub mod expander;
pub mod msg;
pub mod supervisor;
pub mod tt;

verus! {

} // verus!
