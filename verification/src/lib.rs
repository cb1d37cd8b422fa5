//! A console and file logger whose formatting and routing decisions are
//! verified: what each line looks like, which lines are kept on disk and
//! how, when a desktop notice is due, and which old log files are removed.
pub mod files;
pub mod laws;
pub mod levels;
pub mod logger;
mod outside;
pub mod text;

pub use files::{expired_logs, is_expired_log, log_entry, log_file_name, today_log_file_name};
pub use levels::{is_standard_level_text, is_valid_mode_text};
pub use logger::{
    all_standard_levels, caller_place, exception_message, format_place, panic_message, LogRecord, NewVersaLog,
    NewVersaLogSimple, NewVersaLogSimple2, Notice, SaveRoute, VersaLog, LOG_RETENTION_DAYS,
};
