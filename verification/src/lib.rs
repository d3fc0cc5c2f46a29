pub mod text;
pub mod paths;
pub mod exec_mode;
pub mod args;
pub mod command;
pub mod events;
pub mod style;
pub mod project;
