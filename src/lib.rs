//! Process-lifecycle control for a long-running network daemon: command-line
//! handling, the mapping of operating-system signals to control requests, and
//! the lifecycle state machine that orders startup, reload and shutdown.

pub mod lifecycle;
pub mod options;
pub mod signals;
