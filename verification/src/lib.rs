//! Decisions of a code-mode session and of the Guardian review of its commands.

pub mod callback_laws;
pub mod callbacks;
pub mod cell_host;
pub mod event_laws;
pub mod guardian;
pub mod guardian_laws;
pub mod guardian_types;
pub mod host_laws;
pub mod json;
pub mod map_laws;
pub mod resolution_laws;
pub mod session;
pub mod session_call_laws;
pub mod session_laws;
pub mod session_types;
pub mod string_map;
pub mod text;
pub mod tool_error;
