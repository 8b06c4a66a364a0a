pub mod filling;
pub mod hex_grid;
pub mod projection;
pub mod square_grid;
pub mod support;
pub mod transform;
