//! The core of an interactive sphere viewer: the tessellation of the sphere,
//! the input state machine of its orbit camera, the texture resources, and the
//! frame lifecycle of the renderer, all over plain values.

pub mod app;
pub mod camera;
pub mod graphics;
pub mod sphere;
pub mod surface;
pub mod texture;
pub mod vertex;
