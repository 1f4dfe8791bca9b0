pub mod flags;
pub mod cyclic;
pub mod notify;
pub mod global;
pub mod supplier;
