//! Supervision of the desktop shell's companion backend process: where the
//! backend lives, which endpoint the interface is told about, and when the
//! child process is handed back for termination.

pub mod endpoint;
pub mod supervisor;
pub mod target;
