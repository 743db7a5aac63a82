pub mod command;
pub mod view_commands;
