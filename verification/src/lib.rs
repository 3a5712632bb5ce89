//! A verified core for an instanced-rendering engine: vertex layout
//! packing, the vertex-array slot/divisor binding algorithm, host-mirror
//! buffer streaming with a fixed capacity, and the per-instance transform
//! records fed to the GPU. Float values are carried as 32-bit bit
//! patterns; the float arithmetic itself is done by nalgebra-glm behind
//! trusted wrappers.

pub mod binding;
pub mod camera;
pub mod dossier;
pub mod gl_error;
pub mod glmath;
pub mod index_buffer;
pub mod layout;
pub mod mesh;
pub mod renderer;
pub mod shader;
pub mod texture;
pub mod transform;
pub mod vertex;
pub mod vertex_array;
pub mod vertex_buffer;
