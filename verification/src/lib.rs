//! The core of a desktop automation backend, proved with Verus.
//!
//! Two things are decided here. The first is the course of a pipeline:
//! which program is launched next, and which lifecycle events the
//! presentation layer is told ([`runner`], [`pipeline`], [`event`],
//! [`process`], [`session`]). The second is the call of a native
//! function by its name: the registry of handlers, the shape that each
//! handler expects of its payload, and what the handler asks for
//! ([`registry`], [`dispatch`], [`payload`], [`logging`], [`nmap`]).
//!
//! Nothing here launches a process, writes a line or touches a window.
//! The functions answer with what is to be done, and their contracts say
//! exactly what that is; doing it is left to the caller.

pub mod clock;
pub mod dispatch;
pub mod event;
pub mod files;
pub mod logging;
pub mod nmap;
pub mod payload;
pub mod pipeline;
pub mod platform;
pub mod process;
pub mod registry;
pub mod runner;
pub mod session;
pub mod text;
