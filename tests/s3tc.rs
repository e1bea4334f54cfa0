use darkest::s3tc::{Format, Image, ImageError, S3MipmapDesc};

fn put_u32(b: &mut Vec<u8>, at: usize, v: u32) {
    b[at..at + 4].copy_from_slice(&v.to_le_bytes());
}

fn container(four_cc: &[u8; 4], w: u32, h: u32, mips: u32, payload: usize) -> Vec<u8> {
    let mut b = vec![0u8; 128 + payload];
    b[0..4].copy_from_slice(b"DDS ");
    put_u32(&mut b, 12, w);
    put_u32(&mut b, 16, h);
    put_u32(&mut b, 20, 1234);
    put_u32(&mut b, 28, mips);
    b[84..88].copy_from_slice(four_cc);
    for (i, x) in b[128..].iter_mut().enumerate() {
        *x = (i % 251) as u8;
    }
    b
}

fn desc(offset: usize, size: usize, width: i32, height: i32) -> S3MipmapDesc {
    S3MipmapDesc { offset, size, width, height }
}

#[test]
fn single_level_64_dxt1() {
    let img = Image::from_dds_buffer(container(b"DXT1", 64, 64, 1, 16 * 16 * 8)).unwrap();
    assert_eq!(img.mipmaps(), &[desc(0, 16 * 16 * 8, 64, 64)]);
    assert_eq!(img.format(), Format::DXT1);
    assert_eq!(img.block_size(), 8);
    assert_eq!(img.width(), 64);
    assert_eq!(img.height(), 64);
    assert_eq!(img.linear_size(), 1234);
    assert_eq!(img.data().len(), 16 * 16 * 8);
}

#[test]
fn single_level_64_dxt5() {
    let img = Image::from_dds_buffer(container(b"DXT5", 64, 64, 1, 16 * 16 * 16)).unwrap();
    assert_eq!(img.mipmaps(), &[desc(0, 16 * 16 * 16, 64, 64)]);
    assert_eq!(img.format(), Format::DXT5);
    assert_eq!(img.block_size(), 16);
}

#[test]
fn dxt3_and_its_premultiplied_twin() {
    for code in [b"DXT3", b"DXT2"] {
        let img = Image::from_dds_buffer(container(code, 4, 4, 1, 16)).unwrap();
        assert_eq!(img.format(), Format::DXT3);
        assert_eq!(img.block_size(), 16);
    }
}

#[test]
fn full_chain_8x8_ends_at_payload_end() {
    // 8x8, 4x4, 2x2, 1x1: 4 blocks, then one block each.
    let total = (4 + 1 + 1 + 1) * 8;
    let img = Image::from_dds_buffer(container(b"DXT1", 8, 8, 4, total)).unwrap();
    assert_eq!(
        img.mipmaps(),
        &[desc(0, 32, 8, 8), desc(32, 8, 4, 4), desc(40, 8, 2, 2), desc(48, 8, 1, 1)]
    );
    let last = img.mipmaps().last().unwrap();
    assert_eq!(last.offset + last.size, img.data().len());
}

#[test]
fn non_square_chain_halves_to_one() {
    let img = Image::from_dds_buffer(container(b"DXT5", 16, 4, 3, 112)).unwrap();
    assert_eq!(img.mipmaps(), &[desc(0, 64, 16, 4), desc(64, 32, 8, 2), desc(96, 16, 4, 1)]);
    assert!(matches!(
        Image::from_dds_buffer(container(b"DXT5", 16, 4, 3, 111)),
        Err(ImageError::InvalidData(_))
    ));
}

#[test]
fn zero_levels_gives_no_descriptors() {
    let img = Image::from_dds_buffer(container(b"DXT1", 8, 8, 0, 0)).unwrap();
    assert!(img.mipmaps().is_empty());
    assert!(img.mipmap_iter().next().is_none());
}

#[test]
fn corrupted_tag_is_invalid_data() {
    let mut b = container(b"DXT1", 64, 64, 1, 16 * 16 * 8);
    b[1] = b'X';
    assert!(matches!(Image::from_dds_buffer(b), Err(ImageError::InvalidData(_))));
    let mut b = container(b"DXT1", 64, 64, 1, 16 * 16 * 8);
    b[3] = b'S';
    assert!(matches!(Image::from_dds_buffer(b), Err(ImageError::InvalidData(_))));
}

#[test]
fn short_buffer_is_invalid_data() {
    let b = container(b"DXT1", 4, 4, 1, 8);
    assert!(matches!(Image::from_dds_buffer(b[..127].to_vec()), Err(ImageError::InvalidData(_))));
    assert!(matches!(Image::from_dds_buffer(vec![]), Err(ImageError::InvalidData(_))));
}

#[test]
fn unknown_format_is_unsupported() {
    let b = container(b"ATI2", 4, 4, 1, 16);
    assert!(matches!(Image::from_dds_buffer(b), Err(ImageError::UnsupportedCompression)));
    let b = container(b"DXT4", 4, 4, 1, 16);
    assert!(matches!(Image::from_dds_buffer(b), Err(ImageError::UnsupportedCompression)));
}

#[test]
fn payload_shorter_than_chain_is_invalid_data() {
    let b = container(b"DXT1", 8, 8, 2, 39);
    assert!(matches!(Image::from_dds_buffer(b), Err(ImageError::InvalidData(_))));
    let b = container(b"DXT1", 8, 8, 2, 40);
    assert!(Image::from_dds_buffer(b).is_ok());
}

#[test]
fn zero_or_oversized_dimension_is_invalid_data() {
    assert!(matches!(
        Image::from_dds_buffer(container(b"DXT1", 0, 4, 1, 8)),
        Err(ImageError::InvalidData(_))
    ));
    assert!(matches!(
        Image::from_dds_buffer(container(b"DXT1", 4, 0x8000_0000, 1, 8)),
        Err(ImageError::InvalidData(_))
    ));
}

#[test]
fn huge_level_count_is_rejected_by_payload() {
    let b = container(b"DXT1", 4, 4, u32::MAX, 64);
    assert!(matches!(Image::from_dds_buffer(b), Err(ImageError::InvalidData(_))));
}

#[test]
fn mipmap_views_slice_the_payload() {
    let total = 32 + 8 + 8 + 8;
    let img = Image::from_dds_buffer(container(b"DXT1", 8, 8, 4, total)).unwrap();
    let mut it = img.mipmap_iter();
    let mut seen = vec![];
    while let Some(v) = it.next() {
        seen.push((v.width, v.height, v.data.to_vec()));
    }
    assert_eq!(seen.len(), 4);
    assert_eq!((seen[0].0, seen[0].1), (8, 8));
    assert_eq!(seen[0].2, img.data()[0..32].to_vec());
    assert_eq!((seen[3].0, seen[3].1), (1, 1));
    assert_eq!(seen[3].2, img.data()[48..56].to_vec());
    assert_eq!(seen[1].2[0], (32 % 251) as u8);
    // A second walk starts again from the largest level.
    let again = img.mipmap_iter().next().unwrap();
    assert_eq!((again.width, again.height, again.data.len()), (8, 8, 32));
}

#[test]
fn iterator_over_given_descriptors() {
    let data: Vec<u8> = (0u8..10).collect();
    let descs = vec![desc(2, 3, 5, 6), desc(0, 0, 1, 1)];
    let mut it = darkest::s3tc::S3MipmapIter::new(&data, &descs);
    let v = it.next().unwrap();
    assert_eq!((v.width, v.height, v.data), (5, 6, &[2u8, 3, 4][..]));
    let v = it.next().unwrap();
    assert!(v.data.is_empty());
    assert!(it.next().is_none());
    assert!(it.next().is_none());
}

#[test]
fn gl_formats_are_the_s3tc_enums() {
    // Values of the EXT_texture_compression_s3tc enums in the OpenGL registry.
    assert_eq!(Format::DXT1.gl_format(), 0x83F0);
    assert_eq!(Format::DXT3.gl_format(), 0x83F2);
    assert_eq!(Format::DXT5.gl_format(), 0x83F3);
}
