//! Verified core of an OpenGL shading-language cookbook framework: frame timing,
//! scene selection and event handling, mesh index generation, Wavefront OBJ
//! parsing and the bookkeeping around textures and shader sources.
pub mod error;
pub mod timer;
pub mod utils;
pub mod scene;
pub mod scenerunner;
pub mod objects;
pub mod texture;
