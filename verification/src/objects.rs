//! Mesh objects: the integer structure of the generated meshes and the OBJ loader.
pub mod indices;
pub mod objmesh;
pub mod torus;
pub mod plane;
pub mod sphere;
pub mod cube;
pub mod skybox;
pub mod frustum;
pub mod teapot;
pub mod teapot_patch;
pub mod quad;
