//! The screens of the session and the navigation between them.

pub mod page;
pub mod creating;
pub mod options;
pub mod mods;
pub mod logs;
pub mod search_body;
pub mod view;
pub mod instances;
pub mod installing;
