pub mod vault;
pub mod strategy;
