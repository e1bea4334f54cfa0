use vstd::prelude::*;
use crate::s3tc::{is_valid_container, Image, ImageError};

verus! {

/// The maps of a material without a normal map.
pub struct Basic {
    pub diffuse: Image,
    pub specular: Image,
}

/// The maps of a normal-mapped material.
pub struct NormalMapped {
    pub diffuse: Image,
    pub specular: Image,
    pub normal: Image,
}

/// A material's maps, of either kind.
pub enum LightMaps {
    Basic(Basic),
    NormalMapped(NormalMapped),
}

impl LightMaps {
    /// How many textures the material needs: two, or three with a normal map.
    pub fn texture_count(&self) -> (r: usize)
        ensures
            r == (if self is Basic { 2usize } else { 3usize }),
    {
        match self {
            LightMaps::Basic(_) => 2,
            LightMaps::NormalMapped(_) => 3,
        }
    }
}

/// Decodes the diffuse and specular maps of a basic material from the bytes
/// of their containers. Fails with the first map's error, diffuse first.
pub fn load_dds_basic_lightmaps(d: Vec<u8>, s: Vec<u8>) -> (r: Result<Basic, ImageError>)
    ensures
        r is Ok <==> is_valid_container(d@) && is_valid_container(s@),
        r matches Ok(lm) ==> lm.diffuse.decoded_from(d@) && lm.specular.decoded_from(s@),
{
    let diffuse = Image::from_dds_buffer(d)?;
    let specular = Image::from_dds_buffer(s)?;
    Ok(Basic { diffuse, specular })
}

/// Decodes the diffuse, specular and normal maps of a normal-mapped material
/// from the bytes of their containers. Fails with the first map's error, in
/// that order.
pub fn load_dds_normal_mapped_lightmaps(diff: Vec<u8>, spec: Vec<u8>, norm: Vec<u8>) -> (r: Result<
    NormalMapped,
    ImageError,
>)
    ensures
        r is Ok <==> is_valid_container(diff@) && is_valid_container(spec@) && is_valid_container(
            norm@,
        ),
        r matches Ok(lm) ==> lm.diffuse.decoded_from(diff@) && lm.specular.decoded_from(spec@)
            && lm.normal.decoded_from(norm@),
{
    let diffuse = Image::from_dds_buffer(diff)?;
    let specular = Image::from_dds_buffer(spec)?;
    let normal = Image::from_dds_buffer(norm)?;
    Ok(NormalMapped { diffuse, specular, normal })
}

} // verus!
