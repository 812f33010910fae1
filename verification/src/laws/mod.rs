//! What holds of the client as a whole.

pub mod key;
pub mod operations;
pub mod setup;
pub mod steps;
pub mod text;
pub mod trust;
pub mod wire;
