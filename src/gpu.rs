pub mod basic_mesh;
pub mod normal_mapped_mesh;
pub mod textures;

use vstd::prelude::*;
use crate::uniform::GL_FLOAT;

verus! {

/// Attribute location of vertex positions.
pub const POSITION_LOCATION: u32 = 0;

/// Attribute location of vertex normals.
pub const NORMAL_LOCATION: u32 = 1;

/// Attribute location of texture coordinates.
pub const UV_LOCATION: u32 = 2;

/// Attribute location of tangents.
pub const TANGENT_LOCATION: u32 = 3;

/// Attribute location of bitangents.
pub const BITANGENT_LOCATION: u32 = 4;

/// Texture unit of the diffuse map.
pub const DIFFUSE_TEXTURE_UNIT: u32 = 0;

/// Texture unit of the specular map.
pub const SPECULAR_TEXTURE_UNIT: u32 = 1;

/// Texture unit of the normal map.
pub const NORMAL_TEXTURE_UNIT: u32 = 2;

/// Uniform location of the diffuse sampler.
pub const DIFFUSE_SAMPLER_LOCATION: u32 = 20;

/// Uniform location of the specular sampler.
pub const SPECULAR_SAMPLER_LOCATION: u32 = 21;

/// Uniform location of the normal-map sampler.
pub const NORMAL_SAMPLER_LOCATION: u32 = 22;

/// Uniform location of the camera position.
pub const VIEW_POS_LOCATION: u32 = 10;

/// OpenGL enum value of `TEXTURE0`; unit `n` is `TEXTURE0 + n`.
pub const GL_TEXTURE0: u32 = 0x84C0;

/// Bytes of one mesh index (a 32-bit unsigned integer).
pub const INDEX_BYTES: usize = 4;

/// Bytes of one 32-bit float component.
pub const COMPONENT_BYTES: usize = 4;

/// Largest value of a `GLsizei`.
pub const SIZEI_MAX: usize = 0x7fff_ffff;

/// Largest byte size of one buffer handed to the API: the largest
/// `GLsizeiptr` of a 32-bit target, so that sizes fit on every target.
pub const SIZEIPTR_MAX: usize = 0x7fff_ffff;

/// Shape of one vertex attribute: a float or a vector of floats.
#[derive(Clone, Copy, Debug, PartialEq, Eq, Structural)]
pub enum AttributeType {
    Vec2,
    Vec3,
    Vec4,
    Float,
}

pub open spec fn spec_count(a: AttributeType) -> u32 {
    match a {
        AttributeType::Float => 1,
        AttributeType::Vec2 => 2,
        AttributeType::Vec3 => 3,
        AttributeType::Vec4 => 4,
    }
}

impl AttributeType {
    /// Components per element.
    pub fn count(&self) -> (r: u32)
        ensures
            r == spec_count(*self),
    {
        match self {
            AttributeType::Float => 1,
            AttributeType::Vec2 => 2,
            AttributeType::Vec3 => 3,
            AttributeType::Vec4 => 4,
        }
    }

    /// OpenGL type of each component: always a 32-bit float.
    pub fn gl_type(&self) -> (r: u32)
        ensures
            r == GL_FLOAT,
    {
        GL_FLOAT
    }
}

/// The OpenGL enum value that selects texture unit `unit`.
pub fn texture_unit_enum(unit: u32) -> (r: u32)
    requires
        unit <= NORMAL_TEXTURE_UNIT,
    ensures
        r == GL_TEXTURE0 + unit,
{
    GL_TEXTURE0 + unit
}

/// Where a buffer is bound while its data is uploaded.
#[derive(Clone, Copy, Debug, PartialEq, Eq, Structural)]
pub enum BufferTarget {
    /// The index stream.
    ElementArray,
    /// A vertex attribute stream.
    Array,
}

/// How an attribute buffer feeds the vertex array: its location and the
/// shape of each tightly packed element.
#[derive(Clone, Copy, Debug, PartialEq, Eq, Structural)]
pub struct AttributeBinding {
    pub location: u32,
    pub attr: AttributeType,
}

/// One buffer to fill, upload-once, from a stream of the CPU mesh.
#[derive(Clone, Copy, Debug, PartialEq, Eq, Structural)]
pub struct StreamUpload {
    pub target: BufferTarget,
    pub byte_size: usize,
    pub binding: Option<AttributeBinding>,
}

/// How many elements each stream of a CPU mesh holds: indices, and
/// vectors of each attribute.
#[derive(Clone, Copy, Debug, PartialEq, Eq, Structural)]
pub struct MeshStreams {
    pub indices: usize,
    pub positions: usize,
    pub normals: usize,
    pub uvs: usize,
    pub tangents: usize,
    pub bitangents: usize,
}

/// Why a mesh or a texture cannot go to the GPU.
#[derive(Clone, Copy, Debug, PartialEq, Eq, Structural)]
pub enum UploadError {
    /// A count or a byte size does not fit the graphics API's size types.
    TooLarge,
    /// The texture handles are of another kind of material than the maps.
    KindMismatch,
}

pub open spec fn attr_bytes(a: AttributeType) -> nat {
    spec_count(a) as nat * COMPONENT_BYTES as nat
}

pub open spec fn index_upload(n: usize) -> StreamUpload {
    StreamUpload {
        target: BufferTarget::ElementArray,
        byte_size: (n * INDEX_BYTES) as usize,
        binding: None,
    }
}

pub open spec fn attr_upload(n: usize, location: u32, a: AttributeType) -> StreamUpload {
    StreamUpload {
        target: BufferTarget::Array,
        byte_size: (n * attr_bytes(a)) as usize,
        binding: Some(AttributeBinding { location, attr: a }),
    }
}

/// Every count of the mesh fits: the index count is a `GLsizei` and each
/// stream's byte size a `GLsizeiptr`.
pub open spec fn basic_fits(s: MeshStreams) -> bool {
    &&& s.indices * INDEX_BYTES <= SIZEIPTR_MAX
    &&& s.indices <= SIZEI_MAX
    &&& s.positions * 12 <= SIZEIPTR_MAX
    &&& s.normals * 12 <= SIZEIPTR_MAX
    &&& s.uvs * 8 <= SIZEIPTR_MAX
}

pub open spec fn normal_mapped_fits(s: MeshStreams) -> bool {
    &&& basic_fits(s)
    &&& s.tangents * 12 <= SIZEIPTR_MAX
    &&& s.bitangents * 12 <= SIZEIPTR_MAX
}

/// The buffers of a basic mesh, in upload order.
pub open spec fn basic_plan(s: MeshStreams) -> Seq<StreamUpload> {
    seq![
        index_upload(s.indices),
        attr_upload(s.positions, POSITION_LOCATION, AttributeType::Vec3),
        attr_upload(s.normals, NORMAL_LOCATION, AttributeType::Vec3),
        attr_upload(s.uvs, UV_LOCATION, AttributeType::Vec2),
    ]
}

/// The buffers of a normal-mapped mesh, in upload order.
pub open spec fn normal_mapped_plan(s: MeshStreams) -> Seq<StreamUpload> {
    basic_plan(s) + seq![
        attr_upload(s.tangents, TANGENT_LOCATION, AttributeType::Vec3),
        attr_upload(s.bitangents, BITANGENT_LOCATION, AttributeType::Vec3),
    ]
}

fn checked_bytes(n: usize, per: usize) -> (r: Result<usize, UploadError>)
    requires
        1 <= per <= 16,
    ensures
        r is Ok <==> n * per <= SIZEIPTR_MAX,
        r matches Ok(b) ==> b == n * per,
{
    if n > SIZEIPTR_MAX / per {
        assert(n * per > SIZEIPTR_MAX) by (nonlinear_arith)
            requires
                n > SIZEIPTR_MAX / per,
                per >= 1,
        ;
        Err(UploadError::TooLarge)
    } else {
        assert(n * per <= SIZEIPTR_MAX) by (nonlinear_arith)
            requires
                n <= SIZEIPTR_MAX / per,
                per >= 1,
        ;
        Ok(n * per)
    }
}

fn attr_stream(n: usize, location: u32, a: AttributeType) -> (r: Result<StreamUpload, UploadError>)
    ensures
        r is Ok <==> n * attr_bytes(a) <= SIZEIPTR_MAX,
        r matches Ok(u) ==> u == attr_upload(n, location, a),
{
    let per: usize = (a.count() as usize) * COMPONENT_BYTES;
    let bytes = checked_bytes(n, per)?;
    Ok(StreamUpload { target: BufferTarget::Array, byte_size: bytes, binding: Some(AttributeBinding { location, attr: a }) })
}

/// The buffers that a basic mesh (positions, normals and texture
/// coordinates) needs, with the attribute location and shape of each:
/// position at 0 and normal at 1, three floats each; texture coordinates at
/// 2, two floats. Fails when a size does not fit the API's size types.
pub fn basic_mesh_plan(s: &MeshStreams) -> (r: Result<Vec<StreamUpload>, UploadError>)
    ensures
        r is Ok <==> basic_fits(*s),
        r matches Ok(v) ==> v@ == basic_plan(*s),
{
    if s.indices > SIZEI_MAX {
        return Err(UploadError::TooLarge);
    }
    let ib = checked_bytes(s.indices, INDEX_BYTES)?;
    let p = attr_stream(s.positions, POSITION_LOCATION, AttributeType::Vec3)?;
    let n = attr_stream(s.normals, NORMAL_LOCATION, AttributeType::Vec3)?;
    let u = attr_stream(s.uvs, UV_LOCATION, AttributeType::Vec2)?;
    let mut v: Vec<StreamUpload> = Vec::new();
    v.push(StreamUpload { target: BufferTarget::ElementArray, byte_size: ib, binding: None });
    v.push(p);
    v.push(n);
    v.push(u);
    assert(v@ =~= basic_plan(*s));
    Ok(v)
}

/// The buffers of a basic mesh followed by tangents at location 3 and
/// bitangents at location 4, three floats each.
pub fn normal_mapped_mesh_plan(s: &MeshStreams) -> (r: Result<Vec<StreamUpload>, UploadError>)
    ensures
        r is Ok <==> normal_mapped_fits(*s),
        r matches Ok(v) ==> v@ == normal_mapped_plan(*s),
{
    let mut v = basic_mesh_plan(s)?;
    let t = attr_stream(s.tangents, TANGENT_LOCATION, AttributeType::Vec3)?;
    let b = attr_stream(s.bitangents, BITANGENT_LOCATION, AttributeType::Vec3)?;
    v.push(t);
    v.push(b);
    assert(v@ =~= normal_mapped_plan(*s));
    Ok(v)
}

} // verus!
