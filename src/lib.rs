//! A shared-state broker: one value, many observers, and notifications that
//! reach only the observers whose chosen channel a write announces.
pub mod channel;
pub mod station;
pub mod radio;
pub mod reducer;
pub mod laws;
pub mod lists;
