//! Renders the contents of files for a console: decoded leniently, optionally
//! numbered line by line and optionally wrapped in an RGB colour, followed by
//! a status line. The library holds the rules; reading files and scheduling
//! the per-file tasks is left to the program around it.

pub mod color;
pub mod config;
pub mod dispatch;
pub mod format;
pub mod lines;
pub mod task;
pub mod text;

pub use color::{is_valid_hex_color, Rgb};
pub use config::{ArgsCf, RunConfig, UsageError};
pub use dispatch::{completion, plan};
pub use format::{error_line, number_prefix, render_content, render_file, status_line};
pub use lines::split_lines;
pub use task::{FileTask, TaskAction, TaskEvent, TaskState};
