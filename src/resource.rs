use vstd::prelude::*;

verus! {

/// Kind of GPU resource that a [`ResourceID`] refers to.
#[derive(Clone, Copy, Debug, PartialEq, Eq, Structural)]
pub enum ResourceType {
    /// A mesh with a diffuse and a specular map.
    TexturedMesh,
    /// A mesh with a diffuse, a specular and a normal map.
    NormalMappedMesh,
}

/// Largest index (exclusive) that fits in the lower 24 bits of an id.
pub const INDEX_LIMIT: u32 = 0x0100_0000;

/// Tag byte of textured meshes.
pub const TEXTURED_MESH_TAG: u8 = 24;

/// Tag byte of normal-mapped meshes.
pub const NORMAL_MAPPED_MESH_TAG: u8 = 25;

pub open spec fn spec_tag(t: ResourceType) -> u8 {
    match t {
        ResourceType::TexturedMesh => TEXTURED_MESH_TAG,
        ResourceType::NormalMappedMesh => NORMAL_MAPPED_MESH_TAG,
    }
}

impl ResourceType {
    /// The byte that stands for this type in the upper bits of an id.
    pub fn tag(&self) -> (r: u8)
        ensures
            r == spec_tag(*self),
    {
        match self {
            ResourceType::TexturedMesh => TEXTURED_MESH_TAG,
            ResourceType::NormalMappedMesh => NORMAL_MAPPED_MESH_TAG,
        }
    }
}

/// An opaque handle: the upper 8 bits hold the resource type's tag, the
/// lower 24 bits an index into that type's backing store.
#[derive(Clone, Copy, Debug)]
pub struct ResourceID(u32);

pub open spec fn encode_id(t: ResourceType, uid: u32) -> u32 {
    ((spec_tag(t) as u32) << 24u32) | uid
}

impl View for ResourceID {
    type V = u32;

    closed spec fn view(&self) -> u32 {
        self.0
    }
}

impl ResourceID {
    #[verifier::type_invariant]
    closed spec fn inv(&self) -> bool {
        exists|t: ResourceType, i: u32| i < INDEX_LIMIT && self.0 == encode_id(t, i)
    }

    /// The type part of this id.
    pub closed spec fn spec_type(&self) -> ResourceType {
        if (self.0 >> 24u32) as u8 == TEXTURED_MESH_TAG {
            ResourceType::TexturedMesh
        } else {
            ResourceType::NormalMappedMesh
        }
    }

    /// The index part of this id.
    pub closed spec fn spec_index(&self) -> nat {
        (self.0 & 0x00ff_ffffu32) as nat
    }

    /// Builds the id of entry `uid` of the store of `rc_type`.
    pub fn new(rc_type: ResourceType, uid: u32) -> (r: Self)
        requires
            uid < INDEX_LIMIT,
        ensures
            r@ == encode_id(rc_type, uid),
            r.spec_type() == rc_type,
            r.spec_index() == uid,
    {
        let tag = rc_type.tag();
        let v: u32 = ((tag as u32) << 24u32) | uid;
        proof {
            lemma_decode(rc_type, uid);
        }
        ResourceID(v)
    }

    /// The type that this id was made with.
    pub fn get_type(&self) -> (r: ResourceType)
        ensures
            r == self.spec_type(),
    {
        let tag: u8 = (self.0 >> 24u32) as u8;
        if tag == TEXTURED_MESH_TAG {
            ResourceType::TexturedMesh
        } else {
            ResourceType::NormalMappedMesh
        }
    }

    /// The index that this id was made with.
    pub fn as_index(&self) -> (r: usize)
        ensures
            r == self.spec_index(),
            r < INDEX_LIMIT,
    {
        proof {
            use_type_invariant(self);
            let v = self.0;
            assert(v & 0x00ff_ffffu32 <= 0x00ff_ffffu32) by (bit_vector);
        }
        (self.0 & 0x00ff_ffffu32) as usize
    }
}

proof fn lemma_decode(t: ResourceType, uid: u32)
    requires
        uid < INDEX_LIMIT,
    ensures
        (encode_id(t, uid) >> 24u32) as u8 == spec_tag(t),
        encode_id(t, uid) & 0x00ff_ffffu32 == uid,
{
    let g = spec_tag(t);
    assert((((g as u32) << 24u32) | uid) >> 24u32 == g as u32) by (bit_vector)
        requires
            uid < 0x0100_0000u32,
    ;
    assert((((g as u32) << 24u32) | uid) & 0x00ff_ffffu32 == uid) by (bit_vector)
        requires
            uid < 0x0100_0000u32,
    ;
}

/// Decoding an id gives back what it was made of: for every index below
/// 2^24, an id whose value encodes `(t, uid)` (as `new(t, uid)` returns)
/// yields `uid` from `as_index` and `t` from `get_type`.
pub proof fn lemma_id_round_trip(id: ResourceID, t: ResourceType, uid: u32)
    requires
        uid < INDEX_LIMIT,
        id@ == encode_id(t, uid),
    ensures
        id.spec_index() == uid,
        id.spec_type() == t,
{
    lemma_decode(t, uid);
}

} // verus!
