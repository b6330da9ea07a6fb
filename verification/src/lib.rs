pub mod text;
pub mod util;
pub mod map;
pub mod command;
pub mod path;
pub mod error;
pub mod repo;
pub mod features;
pub mod workspace;
pub mod config;
pub mod multiplexer;
pub mod session;
pub mod cmd;
