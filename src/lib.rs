//! A static-site builder's core: the planning of output paths, the head
//! injection into generated pages, the formatting of compiler diagnostics, the
//! build pass as a state machine that records every page's outcome, and the
//! debounce machine that decides when the development server rebuilds.

pub mod text;
pub mod error;
pub mod paths;
pub mod inject;
pub mod report;
pub mod watch;
pub mod pass;
