//! An incremental note finder: the match engine, the terminal rendering and the
//! input state machine of a live search prompt, with their contracts.

pub mod config;
pub mod input;
pub mod note;
pub mod paths;
pub mod render;
pub mod search;
pub mod session;
pub mod terminal;
pub mod text;
