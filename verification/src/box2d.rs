pub mod collision;
pub mod common;
pub mod dynamics;
pub mod particle;
