//! Planning for builds of the tracing runtime of a Darwinia chain: which
//! repository to fetch, which commands to run in it, and where the
//! compiled runtime and its digest are kept afterwards.
//!
//! Nothing here touches the file system or starts a process. The crate
//! computes names, paths and command lines, and decides which step comes
//! next; a driver performs each step and reports how it went.

pub mod text;
pub mod runtime;
pub mod request;
pub mod layout;
pub mod command;
pub mod plan;
