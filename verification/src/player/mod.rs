pub mod axis;
pub mod side;
pub mod side_map;
pub mod situation;
