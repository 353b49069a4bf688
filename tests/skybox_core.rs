use cgmath::{Matrix4, Rad, Vector3};
use skybox::faces::face_order;
use skybox::{
    cube_indices, cube_vertices, strip_translation, CubeFace, CubemapFaces, FaceImage, Position,
    SkyboxError,
};

fn solid_face(dimension: u32, rgba: [u8; 4]) -> FaceImage {
    let mut pixels = Vec::new();
    for _ in 0..(dimension as usize * dimension as usize) {
        pixels.extend_from_slice(&rgba);
    }
    FaceImage::new(dimension, dimension, pixels)
}

fn six_faces(dimension: u32) -> [FaceImage; 6] {
    [
        solid_face(dimension, [255, 0, 0, 255]),
        solid_face(dimension, [0, 255, 0, 255]),
        solid_face(dimension, [0, 0, 255, 255]),
        solid_face(dimension, [255, 255, 0, 255]),
        solid_face(dimension, [0, 255, 255, 255]),
        solid_face(dimension, [255, 0, 255, 255]),
    ]
}

fn to_array(m: Matrix4<f32>) -> [[f32; 4]; 4] {
    m.into()
}

fn rotation_only_mvp(projection: Matrix4<f32>, view: Matrix4<f32>) -> [[f32; 4]; 4] {
    let stripped = strip_translation(to_array(view), 0.0, 1.0);
    to_array(projection * Matrix4::from(stripped))
}

fn projection() -> Matrix4<f32> {
    cgmath::perspective(cgmath::Deg(70.0), 16.0 / 9.0, 0.1, 100.0)
}

#[test]
fn valid_faces_of_any_size_are_accepted() {
    for d in [1u32, 64, 2048] {
        let faces = CubemapFaces::new(six_faces(d), d).unwrap();
        assert_eq!(faces.dimension(), d);
        assert_eq!(faces.texture_bytes(), 6 * (d as u128) * (d as u128) * 4);
    }
}

#[test]
fn texture_bytes_of_four_pixel_faces() {
    let faces = CubemapFaces::new(six_faces(4), 4).unwrap();
    assert_eq!(faces.texture_bytes(), 384);
}

#[test]
fn mismatched_width_is_rejected() {
    let mut images = six_faces(8);
    images[3] = FaceImage::new(9, 8, vec![0; 9 * 8 * 4]);
    assert_eq!(
        CubemapFaces::new(images, 8).err(),
        Some(SkyboxError::InvalidTextureDimensions)
    );
}

#[test]
fn mismatched_height_is_rejected() {
    let mut images = six_faces(8);
    images[5] = FaceImage::new(8, 7, vec![0; 8 * 7 * 4]);
    assert_eq!(
        CubemapFaces::new(images, 8).err(),
        Some(SkyboxError::InvalidTextureDimensions)
    );
}

#[test]
fn faces_of_another_size_are_rejected() {
    assert_eq!(
        CubemapFaces::new(six_faces(4), 8).err(),
        Some(SkyboxError::InvalidTextureDimensions)
    );
}

#[test]
fn short_pixel_data_is_rejected() {
    let mut images = six_faces(2);
    images[0] = FaceImage::new(2, 2, vec![0; 12]);
    assert_eq!(
        CubemapFaces::new(images, 2).err(),
        Some(SkyboxError::InvalidTextureDimensions)
    );
}

#[test]
fn face_rect_covers_the_whole_face() {
    let faces = CubemapFaces::new(six_faces(16), 16).unwrap();
    let r = faces.face_rect();
    assert_eq!((r.left, r.bottom, r.width, r.height), (0, 0, 16, 16));
}

#[test]
fn faces_come_in_layer_order() {
    let order = face_order();
    assert_eq!(
        order,
        [
            CubeFace::PositiveX,
            CubeFace::NegativeX,
            CubeFace::PositiveY,
            CubeFace::NegativeY,
            CubeFace::PositiveZ,
            CubeFace::NegativeZ,
        ]
    );
    for (i, face) in order.iter().enumerate() {
        assert_eq!(face.layer_index(), i);
    }
}

#[test]
fn solid_color_faces_keep_their_colors() {
    let colors = [
        [255, 0, 0, 255],
        [0, 255, 0, 255],
        [0, 0, 255, 255],
        [255, 255, 0, 255],
        [0, 255, 255, 255],
        [255, 0, 255, 255],
    ];
    let faces = CubemapFaces::new(six_faces(4), 4).unwrap();
    for (face, color) in face_order().iter().zip(colors.iter()) {
        let pixels = faces.face_pixels(*face);
        assert_eq!(pixels.len(), 64);
        for px in pixels.chunks(4) {
            assert_eq!(px, &color[..]);
        }
    }
}

fn diff(a: Position, b: Position) -> [i32; 3] {
    [
        a.x as i32 - b.x as i32,
        a.y as i32 - b.y as i32,
        a.z as i32 - b.z as i32,
    ]
}

#[test]
fn cube_triangles_face_inward() {
    let vertices = cube_vertices();
    let indices = cube_indices();
    assert_eq!(vertices.len(), 24);
    assert_eq!(indices.len(), 36);
    assert!(indices.iter().all(|&i| (i as usize) < vertices.len()));
    let mut triangles = 0;
    for tri in indices.chunks(3) {
        let a = vertices[tri[0] as usize];
        let b = vertices[tri[1] as usize];
        let c = vertices[tri[2] as usize];
        let u = diff(b, a);
        let v = diff(c, a);
        let n = [
            u[1] * v[2] - u[2] * v[1],
            u[2] * v[0] - u[0] * v[2],
            u[0] * v[1] - u[1] * v[0],
        ];
        let dot = n[0] * a.x as i32 + n[1] * a.y as i32 + n[2] * a.z as i32;
        assert!(dot < 0);
        triangles += 1;
    }
    assert_eq!(triangles, 12);
}

#[test]
fn cube_vertices_lie_on_the_unit_cube() {
    for v in cube_vertices().iter() {
        assert!([v.x, v.y, v.z].iter().all(|c| *c == 1 || *c == -1));
    }
}

#[test]
fn identity_view_gives_projection() {
    let identity: Matrix4<f32> = Matrix4::from_scale(1.0);
    assert_eq!(strip_translation(to_array(identity), 0.0, 1.0), to_array(identity));
    let p = projection();
    assert_eq!(rotation_only_mvp(p, identity), to_array(p * identity));
}

#[test]
fn translation_has_no_effect() {
    let p = projection();
    let identity: Matrix4<f32> = Matrix4::from_scale(1.0);
    let translated = Matrix4::from_translation(Vector3::new(10.0, 0.0, 0.0));
    assert_eq!(rotation_only_mvp(p, translated), rotation_only_mvp(p, identity));
}

#[test]
fn rotation_passes_through_bit_for_bit() {
    let p = projection();
    let rotation = Matrix4::from_angle_y(Rad(0.7)) * Matrix4::from_angle_x(Rad(-0.3));
    let mvp = rotation_only_mvp(p, rotation);
    let expected = to_array(p * rotation);
    for c in 0..4 {
        for r in 0..4 {
            assert_eq!(mvp[c][r].to_bits(), expected[c][r].to_bits());
        }
    }
}

#[test]
fn rotation_and_translation_keep_only_rotation() {
    let rotation = Matrix4::from_angle_z(Rad(1.1));
    let view = rotation * Matrix4::from_translation(Vector3::new(-3.0, 4.5, 2.0));
    let stripped = strip_translation(to_array(view), 0.0, 1.0);
    let rot = to_array(rotation);
    for c in 0..3 {
        for r in 0..3 {
            assert_eq!(stripped[c][r], rot[c][r]);
        }
        assert_eq!(stripped[c][3], 0.0);
    }
    assert_eq!(stripped[3], [0.0, 0.0, 0.0, 1.0]);
}

#[test]
fn strip_translation_on_integers() {
    let m = [[1, 2, 3, 4], [5, 6, 7, 8], [9, 10, 11, 12], [13, 14, 15, 16]];
    assert_eq!(
        strip_translation(m, 0, 1),
        [[1, 2, 3, 0], [5, 6, 7, 0], [9, 10, 11, 0], [0, 0, 0, 1]]
    );
}
