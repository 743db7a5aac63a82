pub mod bezier;
pub mod circle;
pub mod component;
pub mod line;
pub mod point;
pub mod vertex;
