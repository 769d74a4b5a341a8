//! The decisions of a server that runs scripts found under one directory:
//! which file a request path names, which arguments the script is started
//! with, what the response says, and when the script's process has to go.
//!
//! Nothing here touches the file system, a socket or a process. The caller
//! performs those steps and reports what happened in plain values.

pub mod args;
pub mod decode;
pub mod dispatch;
pub mod invoke;
pub mod path;
pub mod path_laws;
pub mod reply;
pub mod sandbox;
pub mod sandbox_laws;
pub mod sanitize;
pub mod stream;
pub mod stream_laws;
pub mod upload;

pub use crate::path::path_clean;
pub use crate::stream::OwnedResourceStream;
