//! The decision core of a Monte-Carlo path tracer for triangle meshes.
//!
//! Every quantity that a renderer computes in single precision is held here
//! as its IEEE-754 binary32 bit pattern ([`scalar::Scalar`]). The crate
//! orders, selects, bounds and quantises such values exactly; the rounding
//! arithmetic that produces them (cross products, matrix inverses, random
//! directions) is the caller's, who hands the results in as plain values.

pub mod aabb;
pub mod assembly;
pub mod camera;
pub mod data_structures;
pub mod film;
pub mod gpu;
pub mod material;
pub mod object;
pub mod parser;
pub mod prelude;
pub mod ray;
pub mod renderer;
pub mod scalar;
pub mod scene;
pub mod search;
pub mod triangle;
pub mod trianglemesh;
pub mod vec3;
