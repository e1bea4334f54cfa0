use darkest::gpu::{
    basic_mesh, basic_mesh_plan, normal_mapped_mesh, normal_mapped_mesh_plan, texture_unit_enum,
    textures, AttributeBinding, AttributeType, BufferTarget, MeshStreams, StreamUpload, UploadError,
};
use darkest::lightmaps;
use darkest::s3tc::Image;

fn streams(k: usize, v: usize) -> MeshStreams {
    MeshStreams { indices: k, positions: v, normals: v, uvs: v, tangents: v, bitangents: v }
}

fn attr(bytes: usize, location: u32, attr: AttributeType) -> StreamUpload {
    StreamUpload { target: BufferTarget::Array, byte_size: bytes, binding: Some(AttributeBinding { location, attr }) }
}

fn container(four_cc: &[u8; 4], w: u32, h: u32, mips: u32, payload: usize) -> Vec<u8> {
    let mut b = vec![0u8; 128 + payload];
    b[0..4].copy_from_slice(b"DDS ");
    b[12..16].copy_from_slice(&w.to_le_bytes());
    b[16..20].copy_from_slice(&h.to_le_bytes());
    b[28..32].copy_from_slice(&mips.to_le_bytes());
    b[84..88].copy_from_slice(four_cc);
    for (i, x) in b[128..].iter_mut().enumerate() {
        *x = i as u8;
    }
    b
}

#[test]
fn attribute_shapes() {
    assert_eq!(AttributeType::Float.count(), 1);
    assert_eq!(AttributeType::Vec2.count(), 2);
    assert_eq!(AttributeType::Vec3.count(), 3);
    assert_eq!(AttributeType::Vec4.count(), 4);
    assert_eq!(AttributeType::Vec3.gl_type(), gl::FLOAT);
    assert_eq!(texture_unit_enum(2), gl::TEXTURE2);
    assert_eq!(texture_unit_enum(0), gl::TEXTURE0);
}

#[test]
fn basic_plan_follows_location_contract() {
    let plan = basic_mesh_plan(&streams(6, 4)).unwrap();
    assert_eq!(
        plan,
        vec![
            StreamUpload { target: BufferTarget::ElementArray, byte_size: 24, binding: None },
            attr(48, 0, AttributeType::Vec3),
            attr(48, 1, AttributeType::Vec3),
            attr(32, 2, AttributeType::Vec2),
        ]
    );
}

#[test]
fn normal_mapped_plan_adds_tangent_basis() {
    let plan = normal_mapped_mesh_plan(&streams(3, 3)).unwrap();
    assert_eq!(plan.len(), 6);
    assert_eq!(plan[4], attr(36, 3, AttributeType::Vec3));
    assert_eq!(plan[5], attr(36, 4, AttributeType::Vec3));
}

#[test]
fn oversized_streams_are_refused() {
    assert_eq!(basic_mesh_plan(&streams(0x8000_0000, 1)), Err(UploadError::TooLarge));
    assert_eq!(basic_mesh_plan(&streams(1, 0x1000_0000)), Err(UploadError::TooLarge));
    let mut s = streams(1, 1);
    s.tangents = 0x1000_0000;
    assert!(basic_mesh_plan(&s).is_ok());
    assert_eq!(normal_mapped_mesh_plan(&s), Err(UploadError::TooLarge));
}

#[test]
fn uploaded_mesh_counts_its_indices() {
    for k in [0usize, 3, 6, 999] {
        let b = basic_mesh::Buffers::from_handles(1, 2, 3, 4).unwrap();
        let t = textures::Basic::from_handles(5, 6).unwrap();
        let m = basic_mesh::Mesh::from_upload(9, b, t, k).unwrap();
        assert_eq!(m.element_count() as usize, k);
        assert_eq!(m.vao(), 9);
        assert_eq!(m.buffers().index(), 1);
        assert_eq!(m.buffers().uv(), 4);
        assert_eq!(m.textures().specular(), 6);
    }
    let b = normal_mapped_mesh::Buffers::from_handles(1, 2, 3, 4, 5, 6).unwrap();
    let t = textures::NormalMapped::from_handles(7, 8, 9).unwrap();
    let m = normal_mapped_mesh::Mesh::from_upload(10, b, t, 36).unwrap();
    assert_eq!(m.element_count(), 36);
    assert_eq!(m.buffers().bitangent(), 6);
    assert_eq!(m.textures().normal(), 9);
}

#[test]
fn zero_handles_and_huge_counts_are_refused() {
    assert!(basic_mesh::Buffers::from_handles(1, 0, 3, 4).is_none());
    assert!(textures::Basic::from_handles(0, 6).is_none());
    assert!(textures::NormalMapped::from_handles(1, 2, 0).is_none());
    let b = basic_mesh::Buffers::from_handles(1, 2, 3, 4).unwrap();
    let t = textures::Basic::from_handles(5, 6).unwrap();
    assert!(basic_mesh::Mesh::from_upload(0, b, t, 3).is_none());
    let b = basic_mesh::Buffers::from_handles(1, 2, 3, 4).unwrap();
    let t = textures::Basic::from_handles(5, 6).unwrap();
    assert!(basic_mesh::Mesh::from_upload(1, b, t, 0x8000_0000).is_none());
}

#[test]
fn texture_levels_carry_format_and_sizes() {
    let img = Image::from_dds_buffer(container(b"DXT1", 8, 8, 4, 56)).unwrap();
    let ups = textures::level_uploads(&img).unwrap();
    assert_eq!(ups.len(), 4);
    for (k, u) in ups.iter().enumerate() {
        assert_eq!(u.level, k as i32);
        assert_eq!(u.format, 0x83F0);
    }
    assert_eq!((ups[0].width, ups[0].height, ups[0].data.len()), (8, 8, 32));
    assert_eq!((ups[3].width, ups[3].height, ups[3].data.len()), (1, 1, 8));
    assert_eq!(ups[1].data[0], 32);
}

#[test]
fn channels_use_fixed_units() {
    let lm = lightmaps::load_dds_normal_mapped_lightmaps(
        container(b"DXT1", 4, 4, 1, 8),
        container(b"DXT5", 4, 4, 1, 16),
        container(b"DXT3", 8, 4, 2, 48),
    )
    .unwrap();
    let t = textures::NormalMapped::from_handles(11, 12, 13).unwrap();
    let ch = t.upload_all_textures(&lm).unwrap();
    assert_eq!(ch.iter().map(|c| (c.unit, c.texture, c.levels.len())).collect::<Vec<_>>(), vec![(0, 11, 1), (1, 12, 1), (2, 13, 2)]);
    assert_eq!(ch[1].levels[0].format, 0x83F3);
    assert_eq!(ch[2].levels[1].data.len(), 16);

    let blm = lightmaps::load_dds_basic_lightmaps(container(b"DXT1", 4, 4, 1, 8), container(b"DXT1", 4, 4, 1, 8)).unwrap();
    let bt = textures::Basic::from_handles(21, 22).unwrap();
    let bch = bt.upload_all_textures(&blm).unwrap();
    assert_eq!(bch.iter().map(|c| (c.unit, c.texture)).collect::<Vec<_>>(), vec![(0, 21), (1, 22)]);
}

#[test]
fn lightmaps_fail_on_first_bad_map() {
    let mut bad = container(b"DXT1", 4, 4, 1, 8);
    bad[0] = b'X';
    assert!(lightmaps::load_dds_basic_lightmaps(container(b"DXT1", 4, 4, 1, 8), bad).is_err());
    let r = lightmaps::load_dds_normal_mapped_lightmaps(
        container(b"DXT1", 4, 4, 1, 8),
        container(b"BC7 ", 4, 4, 1, 8),
        container(b"DXT1", 4, 4, 1, 8),
    );
    assert!(matches!(r, Err(darkest::s3tc::ImageError::UnsupportedCompression)));
}

#[test]
fn largest_index_count_is_accepted() {
    let b = basic_mesh::Buffers::from_handles(1, 2, 3, 4).unwrap();
    let t = textures::Basic::from_handles(5, 6).unwrap();
    let m = basic_mesh::Mesh::from_upload(1, b, t, 0x7fff_ffff).unwrap();
    assert_eq!(m.element_count(), i32::MAX);
    let plan = basic_mesh_plan(&streams(0x1fff_ffff, 1)).unwrap();
    assert_eq!(plan[0].byte_size, 0x7fff_fffc);
}

#[test]
fn texture_kind_must_match_maps() {
    let blm = lightmaps::LightMaps::Basic(
        lightmaps::load_dds_basic_lightmaps(container(b"DXT1", 4, 4, 1, 8), container(b"DXT1", 4, 4, 1, 8)).unwrap(),
    );
    assert_eq!(blm.texture_count(), 2);
    let nt = textures::Textures::NormalMapped(textures::NormalMapped::from_handles(1, 2, 3).unwrap());
    assert!(matches!(nt.upload_all_textures(&blm), Err(UploadError::KindMismatch)));
    let bt = textures::Textures::Basic(textures::Basic::from_handles(1, 2).unwrap());
    assert_eq!(bt.upload_all_textures(&blm).unwrap().len(), 2);
}
