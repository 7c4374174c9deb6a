//! Verified core of a small 3D viewer: the cube and axis-indicator geometry,
//! mesh triangulation, the face/shell hierarchy, the streaming-load state
//! machine, picking selection and the overlay layout decisions.
pub mod geometry;
pub mod mesh;
pub mod hierarchy;
pub mod loader;
pub mod selection;
pub mod settings;
pub mod overlay;
pub mod window;
pub mod viewer;
