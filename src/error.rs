use vstd::prelude::*;

verus! {

/// The ways in which building or drawing a skybox can fail.
#[derive(Clone, Debug, PartialEq, Eq)]
pub enum SkyboxError {
    /// The graphics context refused to allocate a buffer or a texture.
    ResourceCreation(String),
    /// The six face images are not all square images of the requested size.
    InvalidTextureDimensions,
    /// The shader program did not compile or link; holds the diagnostic.
    ShaderCompile(String),
    /// The draw call of a frame failed.
    DrawSubmission(String),
}

impl SkyboxError {
    pub open spec fn is_invalid_dimensions(self) -> bool {
        self is InvalidTextureDimensions
    }
}

} // verus!
