pub mod blender;
pub mod rejection;
pub mod combine;
pub mod func;

pub use func::Func;
