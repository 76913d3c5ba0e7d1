//! The core of a small real-time 3D rendering engine.
//!
//! The crate decides what the GPU is asked to do and in which order: it plans
//! shader construction, texture and mesh uploads, draws and uniform writes,
//! and hands the resulting commands to a backend that owns the graphics
//! context. What the GPU answers comes back as plain values.
//!
//! Floating-point numbers pass through as bit patterns: the crate moves and
//! compares them, and leaves the arithmetic on them to its caller.

pub mod camera;
pub mod client;
pub mod command;
pub mod constants;
pub mod cube_map;
pub mod mesh;
pub mod model;
pub mod renderer;
pub mod shader;
pub mod skybox;
pub mod text;
pub mod texture;

pub use client::Client;
pub use command::{Command, GlCall, Mat4, Vec3};
pub use mesh::{Mesh, MeshTexture, Vertex};
pub use model::Model;
pub use renderer::GameRenderer;
pub use shader::Shader;
pub use texture::Texture;
