//! Session runtime of a terminal launcher: input primitives, the notification
//! queue, the polling cadences and the navigation state machine, each with a
//! machine-checked contract.

pub mod keys;
pub mod texts;
pub mod strings;
pub mod cursor;
pub mod text_input;
pub mod chip;
pub mod select;
pub mod utils;
pub mod wrap;
pub mod notifications;
pub mod ui;
pub mod model;
pub mod files;
pub mod profile_files;
pub mod bridge;
pub mod scheduler;
pub mod search;
pub mod log_text;
pub mod pages;
pub mod session;
pub mod display;
