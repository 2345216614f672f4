pub mod actions;
pub mod percent;
pub mod system_specs;
pub mod urls;
