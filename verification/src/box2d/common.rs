pub mod draw;
pub mod handle;
