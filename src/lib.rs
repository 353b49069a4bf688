// Verified core of a skybox renderer: the cube mesh, the validated set of
// cubemap face images, and the view transform that keeps the backdrop at an
// infinite distance.

pub mod error;
pub mod faces;
pub mod geometry;
pub mod transform;

pub use error::SkyboxError;
pub use faces::{BlitRect, CubeFace, CubemapFaces, FaceImage};
pub use geometry::{cube_indices, cube_vertices, Position};
pub use transform::{strip_translation, Mat4};
