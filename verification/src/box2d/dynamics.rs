pub mod body;
pub mod contacts;
pub mod fixture;
pub mod world;
pub mod world_callbacks;
