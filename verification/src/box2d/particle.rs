pub mod particle_color;
pub mod particle_system;
