//! Scene bookkeeping for a small WebGL renderer: the shader programs it
//! knows, the verdicts of compiling and linking them, the meshes of the world,
//! the world clock, and which draw calls a frame issues.

pub mod shaders;
pub mod shader_sources;
pub mod program;
pub mod object;
pub mod world;
pub mod frame;
