pub mod command;
pub mod digits;
pub mod note;
pub mod store;
pub mod numparse;
