pub mod commands;
pub mod draw_call;
pub mod frame_target;
pub mod lifecycle;
pub mod model;
pub mod scheduler;
pub mod shader_loader;

pub use shader_loader::ShaderType;
