pub mod api_loader;
pub mod color;
pub mod config;
pub mod error;
pub mod icc;
pub mod jxl;
pub mod memory;
pub mod orientation;
pub mod path;
pub mod pool;
pub mod raw;
pub mod sandbox;
pub mod system;
pub mod text;
pub mod utils;
