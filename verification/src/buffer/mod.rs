pub mod flags;
pub mod range;
pub mod rect;
pub mod manager;
pub mod events;
pub mod complex;
pub mod chunks;
