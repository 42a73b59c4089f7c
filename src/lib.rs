//! Supervision of an optional companion backend process for a desktop shell.
//!
//! The shell tries once, at startup, to launch a backend executable that sits
//! beside it, and terminates it when its main window is asked to close. This
//! crate holds the decisions of that lifecycle; launching and killing the
//! process are left to the caller.
pub mod executable;
pub mod lifecycle;
pub mod supervisor;
