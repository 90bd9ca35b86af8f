pub mod component;
pub mod timer;
