//! Reading scene files and material libraries as far as bytes go: the
//! faces of triangles, the lines of each object, the names of materials,
//! and where the numbers of vertices and properties stand. What those
//! numbers are worth is left to the caller.
pub mod face;
pub mod materials;
pub mod number;
pub mod objects;
pub mod triangles;
pub mod vertices;
