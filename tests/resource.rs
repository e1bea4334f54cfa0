use darkest::resource::{ResourceID, ResourceType, INDEX_LIMIT};

#[test]
fn id_round_trip() {
    for t in [ResourceType::TexturedMesh, ResourceType::NormalMappedMesh] {
        for i in [0u32, 1, 2, 255, 256, 65535, 0x12_3456, INDEX_LIMIT - 1] {
            let id = ResourceID::new(t, i);
            assert_eq!(id.as_index(), i as usize);
            assert_eq!(id.get_type(), t);
        }
    }
}

#[test]
fn type_tags_sit_in_upper_byte() {
    assert_eq!(ResourceType::TexturedMesh.tag(), 24);
    assert_eq!(ResourceType::NormalMappedMesh.tag(), 25);
    let id = ResourceID::new(ResourceType::NormalMappedMesh, 7);
    assert_eq!(format!("{:?}", id), format!("ResourceID({})", (25u32 << 24) | 7));
}
