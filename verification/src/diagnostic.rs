//! Diagnostics: leveled messages with an optional place in the source and
//! nested sub-messages, appended to a log that the caller drains.

pub mod error_codes;
pub mod excerpt;
pub mod message;
pub mod sender;

pub use excerpt::{layout, Excerpt, Marked};
pub use message::{
    log_view, Diagnostics, DiagnosticsLevel, DiagnosticsOrigin, DiagnosticsView, SubDiagnostics,
    SubDiagnosticsView,
};
pub use sender::DiagnosticsSender;
