pub mod simple;
pub mod status;
