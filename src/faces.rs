use vstd::prelude::*;

use crate::error::SkyboxError;

verus! {

/// One face of a cube, named by the axis direction it faces.
#[derive(Clone, Copy, Debug, PartialEq, Eq, Structural)]
pub enum CubeFace {
    PositiveX,
    NegativeX,
    PositiveY,
    NegativeY,
    PositiveZ,
    NegativeZ,
}

/// Number of faces of a cube.
pub const FACE_COUNT: usize = 6;

/// Bytes per pixel of an RGBA8 image.
pub const BYTES_PER_PIXEL: usize = 4;

impl CubeFace {
    /// The layer of a cube texture that holds this face.
    pub open spec fn layer(self) -> int {
        match self {
            CubeFace::PositiveX => 0,
            CubeFace::NegativeX => 1,
            CubeFace::PositiveY => 2,
            CubeFace::NegativeY => 3,
            CubeFace::PositiveZ => 4,
            CubeFace::NegativeZ => 5,
        }
    }

    /// The layer of a cube texture that holds this face.
    pub fn layer_index(self) -> (r: usize)
        ensures
            r == self.layer(),
            r < FACE_COUNT,
    {
        match self {
            CubeFace::PositiveX => 0,
            CubeFace::NegativeX => 1,
            CubeFace::PositiveY => 2,
            CubeFace::NegativeY => 3,
            CubeFace::PositiveZ => 4,
            CubeFace::NegativeZ => 5,
        }
    }
}

/// The order in which faces are uploaded: +X, -X, +Y, -Y, +Z, -Z.
pub open spec fn face_order_spec() -> Seq<CubeFace> {
    seq![
        CubeFace::PositiveX,
        CubeFace::NegativeX,
        CubeFace::PositiveY,
        CubeFace::NegativeY,
        CubeFace::PositiveZ,
        CubeFace::NegativeZ,
    ]
}

/// The six faces in upload order; the face at position `i` is layer `i`.
pub fn face_order() -> (r: [CubeFace; 6])
    ensures
        r@ == face_order_spec(),
        forall|i: int| 0 <= i < FACE_COUNT ==> (#[trigger] r@[i]).layer() == i,
{
    let r = [
        CubeFace::PositiveX,
        CubeFace::NegativeX,
        CubeFace::PositiveY,
        CubeFace::NegativeY,
        CubeFace::PositiveZ,
        CubeFace::NegativeZ,
    ];
    assert(r@ =~= face_order_spec());
    r
}

/// A decoded RGBA8 image: `pixels` holds four bytes per pixel, row by row.
#[derive(Clone, Debug, PartialEq, Eq)]
pub struct FaceImage {
    pub width: u32,
    pub height: u32,
    pub pixels: Vec<u8>,
}

/// Bytes taken by a square RGBA8 image of side `d`.
pub open spec fn face_bytes(d: int) -> int {
    d * d * BYTES_PER_PIXEL
}

impl FaceImage {
    pub fn new(width: u32, height: u32, pixels: Vec<u8>) -> (r: FaceImage)
        ensures
            r.width == width,
            r.height == height,
            r.pixels@ == pixels@,
    {
        FaceImage { width, height, pixels }
    }

    /// The image is a `d` x `d` square whose pixel data has the matching length.
    pub open spec fn fits(self, d: int) -> bool {
        &&& self.width == d
        &&& self.height == d
        &&& self.pixels@.len() == face_bytes(d)
    }

    /// Whether the image is a `dimension` x `dimension` RGBA8 square.
    pub fn is_square_of(&self, dimension: u32) -> (r: bool)
        ensures
            r == self.fits(dimension as int),
    {
        let d = dimension as u128;
        assert(d * d <= 0xffff_ffff_ffff_ffff) by (nonlinear_arith)
            requires
                d <= 0xffff_ffff,
        ;
        self.width == dimension && self.height == dimension && self.pixels.len() as u128 == d * d
            * 4
    }
}

/// A rectangle of a render target, from its lower-left corner.
#[derive(Clone, Copy, Debug, PartialEq, Eq, Structural)]
pub struct BlitRect {
    pub left: u32,
    pub bottom: u32,
    pub width: i32,
    pub height: i32,
}

/// Bytes of pixel data held by `images`, all together.
pub open spec fn total_pixel_bytes(images: Seq<FaceImage>) -> int
    decreases images.len(),
{
    if images.len() == 0 {
        0
    } else {
        total_pixel_bytes(images.drop_last()) + images.last().pixels@.len()
    }
}

/// Six validated face images of one square size, indexed by layer.
pub struct CubemapFaces {
    dimension: u32,
    images: [FaceImage; 6],
}

impl CubemapFaces {
    pub closed spec fn dimension_spec(&self) -> int {
        self.dimension as int
    }

    pub closed spec fn images_spec(&self) -> Seq<FaceImage> {
        self.images@
    }

    /// Every face is a square of the common dimension.
    pub open spec fn wf(&self) -> bool {
        &&& self.images_spec().len() == FACE_COUNT
        &&& forall|i: int|
            0 <= i < FACE_COUNT ==> (#[trigger] self.images_spec()[i]).fits(self.dimension_spec())
    }

    /// Checks that all six images, given in layer order, are `dimension` x
    /// `dimension` RGBA8 squares. Nothing is allocated on a graphics device:
    /// this is the check that precedes any upload.
    pub fn new(images: [FaceImage; 6], dimension: u32) -> (r: Result<CubemapFaces, SkyboxError>)
        ensures
            r is Ok <==> forall|i: int|
                0 <= i < FACE_COUNT ==> (#[trigger] images@[i]).fits(dimension as int),
            r matches Ok(f) ==> f.wf() && f.dimension_spec() == dimension && f.images_spec()
                == images@,
            r matches Err(e) ==> e.is_invalid_dimensions(),
    {
        let mut i: usize = 0;
        while i < FACE_COUNT
            invariant
                0 <= i <= FACE_COUNT,
                forall|j: int| 0 <= j < i ==> (#[trigger] images@[j]).fits(dimension as int),
            decreases FACE_COUNT - i,
        {
            if !images[i].is_square_of(dimension) {
                return Err(SkyboxError::InvalidTextureDimensions);
            }
            i = i + 1;
        }
        Ok(CubemapFaces { dimension, images })
    }

    /// The side of every face, in pixels.
    pub fn dimension(&self) -> (r: u32)
        ensures
            r == self.dimension_spec(),
    {
        self.dimension
    }

    /// The pixel data of one face.
    pub fn face_pixels(&self, face: CubeFace) -> (r: &Vec<u8>)
        ensures
            r@ == self.images_spec()[face.layer()].pixels@,
    {
        &self.images[face.layer_index()].pixels
    }

    /// The whole surface of one face, as the target of a copy into the cube
    /// texture.
    pub fn face_rect(&self) -> (r: BlitRect)
        requires
            self.wf(),
        ensures
            r.left == 0,
            r.bottom == 0,
            r.width == self.dimension_spec(),
            r.height == self.dimension_spec(),
    {
        let d = self.dimension;
        let len = self.images[0].pixels.len();
        proof {
            assert(self.images_spec()[0].fits(d as int));
            if d > 0x7fff_ffff {
                assert(d * d * 4 > 0xffff_ffff_ffff_ffff) by (nonlinear_arith)
                    requires
                        d > 0x7fff_ffff,
                ;
            }
        }
        BlitRect { left: 0, bottom: 0, width: d as i32, height: d as i32 }
    }

    /// Bytes that the finished cube texture occupies: six faces of
    /// `dimension` x `dimension` pixels, four bytes each.
    pub fn texture_bytes(&self) -> (r: u128)
        ensures
            r == FACE_COUNT * face_bytes(self.dimension_spec()),
    {
        let d = self.dimension as u128;
        assert(d * d <= 0xffff_ffff_ffff_ffff) by (nonlinear_arith)
            requires
                d <= 0xffff_ffff,
        ;
        6 * (d * d * 4)
    }
}

/// A set of faces accepted by `CubemapFaces::new` for dimension `d` fills a
/// cube texture of exactly `6 * d * d * 4` bytes, which is all of the pixel
/// data of the six images: nothing is dropped and nothing is padded.
pub proof fn lemma_texture_holds_all_pixels(faces: CubemapFaces, d: int)
    requires
        faces.wf(),
        faces.dimension_spec() == d,
    ensures
        FACE_COUNT * face_bytes(d) == 6 * d * d * 4,
        total_pixel_bytes(faces.images_spec()) == FACE_COUNT * face_bytes(d),
{
    let s = faces.images_spec();
    assert(s[0].fits(d) && s[1].fits(d) && s[2].fits(d));
    assert(s[3].fits(d) && s[4].fits(d) && s[5].fits(d));
    assert(s.drop_last().drop_last().drop_last().drop_last().drop_last().drop_last().len() == 0);
    assert(total_pixel_bytes(s) == total_pixel_bytes(s.drop_last()) + face_bytes(d));
    reveal_with_fuel(total_pixel_bytes, 7);
    assert(FACE_COUNT * face_bytes(d) == 6 * d * d * 4) by (nonlinear_arith);
}

} // verus!
