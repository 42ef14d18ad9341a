//! Launch-time file routing for a multi-window desktop editor: resolving the
//! file named on the command line, holding it until a window can take it, and
//! choosing which window receives it.

pub mod launch;
pub mod pending;
pub mod resolve;
pub mod router;
