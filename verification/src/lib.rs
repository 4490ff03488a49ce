//! Verified core of a photo synchronisation tool: destination-path templates,
//! file-name sanitisation, configuration rules, progress accounting and the
//! decision logic of the copy pipeline and its progress display.

mod text;
pub mod paths;
pub mod config;
pub mod date;
pub mod timespan;
pub mod pipeline;
pub mod progress;
pub mod counts;
pub mod text_mode;
pub mod tui;
pub mod handler;
pub mod compare;
pub mod scan;
