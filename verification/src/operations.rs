//! Operations that take more than one exchange with the machine.

pub mod recipe_harvest;
pub mod recipe_list;
