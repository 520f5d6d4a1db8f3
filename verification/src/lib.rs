use vstd::prelude::*;

pub mod control_block;
pub mod text;
pub mod codec;
pub mod engine;
pub mod db;
pub mod handler;
pub mod file;
pub mod utils;
pub mod log;
