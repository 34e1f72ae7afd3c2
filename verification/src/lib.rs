//! DevMan's library: everything the site manager decides, computes and writes,
//! apart from the prompts, the file system, the database server, the network
//! and the services it drives.

pub mod answers;
pub mod cli;
pub mod commands;
pub mod db;
pub mod flow;
pub mod hosts;
pub mod pattern;
pub mod template;
pub mod text;
pub mod user;
pub mod wordpress;
