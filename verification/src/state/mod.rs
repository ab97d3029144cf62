pub mod action;
pub mod agent;
pub mod dummy;
pub mod env;
pub mod spec;
pub mod bytes;
pub mod actions;
pub mod hand_info;
