//! Configuration, command-line and daemon logic of a tool that runs local
//! language models through a llama.cpp server.
pub mod checks;
pub mod completions;
pub mod config;
pub mod daemon;
pub mod number;
pub mod server;
pub mod text;


