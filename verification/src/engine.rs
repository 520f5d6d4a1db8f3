pub mod engine;
pub mod return_code;

pub use return_code::ReturnCode;
