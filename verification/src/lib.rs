//! SnapTask: the decision and data logic of a screenshot-to-task manager.
pub mod text;
pub mod models;
pub mod json;
pub mod ai;
pub mod outside;
pub mod tasks;
pub mod records;
pub mod sync;
pub mod reminders;
pub mod capture;
pub mod settings;
pub mod schema;
