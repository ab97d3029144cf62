pub mod calculation;
pub mod sport;
pub mod tables;
pub mod rubber;
