pub mod axial;
pub mod cube;
pub mod neighbors;
pub mod offset;
