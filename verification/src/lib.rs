//! A software 3D rendering pipeline over saturating fixed-point arithmetic:
//! vertex transformation, triangle rasterization with barycentric
//! interpolation, procedural fragment shading, and depth-tested compositing
//! into a framebuffer, plus a projected point-star skybox.

pub mod color;
pub mod fragment;
pub mod framebuffer;
pub mod fx;
pub mod geometry;
pub mod noise;
pub mod pipeline;
pub mod raster;
pub mod shaders;
pub mod skybox;
pub mod vertex;
