pub mod error;
pub mod error_codes;
pub mod text;
pub mod words;
pub mod version;
pub mod queue;
pub mod platform;
pub mod device;
pub mod kernel;
pub mod program;
