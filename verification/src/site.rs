pub mod artifacts;
pub mod changelog;
pub mod funding;
pub mod layout;
