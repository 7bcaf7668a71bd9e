//! The integer and data logic of a small rendering library, verified: camera
//! controls, GPU buffer layout and read-back, material and texture
//! libraries, geometry identifiers, shader include expansion and stroke
//! triangulation.
use vstd::prelude::*;

pub mod camera;
pub mod gpu;
pub mod ids;
pub mod images;
pub mod input;
pub mod material;
pub mod material_spec;
pub mod model;
pub mod render3d;
pub mod shader;
pub mod stroke;

verus! {
} // verus!
