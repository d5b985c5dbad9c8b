//! A personal snippet store: the rules of its interactive viewer, of its tag
//! and content handling, and of its configuration, stated and proved.

pub mod channel;
pub mod config;
pub mod display;
pub mod laws;
pub mod layout;
pub mod models;
pub mod render;
pub mod store;
pub mod suggest;
pub mod tags;
pub mod text;
pub mod utils;
pub mod viewer;
