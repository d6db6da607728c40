//! Resolution of a downloadable runtime build (a JDK, a Node.js release) for a
//! target platform and an optional version constraint.
pub mod java;
pub mod node;
pub mod target;
pub mod text;
pub mod version;
