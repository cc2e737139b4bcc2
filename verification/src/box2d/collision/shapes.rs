pub mod circle_shape;
