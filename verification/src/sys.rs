pub mod resource;
pub mod signal;
pub mod stat;
pub mod wait;
