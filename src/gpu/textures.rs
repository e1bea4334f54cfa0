use vstd::prelude::*;
use crate::gpu::{
    UploadError, DIFFUSE_TEXTURE_UNIT, NORMAL_TEXTURE_UNIT, SIZEI_MAX, SPECULAR_TEXTURE_UNIT,
};
use crate::lightmaps;
use crate::s3tc::{spec_gl_format, Image, S3MipmapDesc};

verus! {

/// One mipmap level to hand to the GPU as it is, still compressed.
pub struct LevelUpload<'a> {
    pub level: i32,
    pub format: u32,
    pub width: i32,
    pub height: i32,
    pub data: &'a [u8],
}

/// Every level fits the API's size type, and so does their number.
pub open spec fn levels_fit(descs: Seq<S3MipmapDesc>) -> bool {
    &&& descs.len() <= SIZEI_MAX
    &&& forall|k: int| 0 <= k < descs.len() ==> (#[trigger] descs[k]).size <= SIZEI_MAX
}

/// Upload `k` for an image: level `k` of its chain, with its format.
pub open spec fn level_upload_matches(u: &LevelUpload, img: &Image, k: int) -> bool {
    let d = img.spec_mipmaps()[k];
    &&& u.level == k
    &&& u.format == spec_gl_format(img.spec_format())
    &&& u.width == d.width
    &&& u.height == d.height
    &&& u.data@ == img.spec_data().subrange(d.offset as int, d.offset + d.size)
}

/// The uploads of every level of `img`, largest first, each at its own mip
/// index and with the image's block format and its own byte size. Fails
/// when a level or the number of levels does not fit a `GLsizei`.
pub fn level_uploads<'a>(img: &'a Image) -> (r: Result<Vec<LevelUpload<'a>>, UploadError>)
    ensures
        r is Ok <==> levels_fit(img.spec_mipmaps()),
        r matches Ok(v) ==> {
            &&& v@.len() == img.spec_mipmaps().len()
            &&& forall|k: int| 0 <= k < v@.len() ==> level_upload_matches(&#[trigger] v@[k], img, k)
        },
{
    let descs = img.mipmaps();
    let count = descs.len();
    if count > SIZEI_MAX {
        return Err(UploadError::TooLarge);
    }
    let mut k: usize = 0;
    while k < count
        invariant
            descs@ == img.spec_mipmaps(),
            count == descs@.len(),
            k <= count,
            forall|j: int| 0 <= j < k ==> (#[trigger] descs@[j]).size <= SIZEI_MAX,
        decreases count - k,
    {
        if descs[k].size > SIZEI_MAX {
            return Err(UploadError::TooLarge);
        }
        k = k + 1;
    }
    let format = img.format().gl_format();
    let mut it = img.mipmap_iter();
    let mut out: Vec<LevelUpload<'a>> = Vec::new();
    let mut level: usize = 0;
    while level < count
        invariant
            descs@ == img.spec_mipmaps(),
            count == descs@.len(),
            count <= SIZEI_MAX,
            format == spec_gl_format(img.spec_format()),
            level <= count,
            it.spec_data() == img.spec_data(),
            it.spec_descs() == img.spec_mipmaps(),
            it.spec_pos() == level,
            out@.len() == level,
            forall|j: int| 0 <= j < level ==> level_upload_matches(&#[trigger] out@[j], img, j),
        decreases count - level,
    {
        match it.next() {
            Some(view) => {
                out.push(
                    LevelUpload {
                        level: level as i32,
                        format,
                        width: view.width,
                        height: view.height,
                        data: view.data,
                    },
                );
            },
            None => {
                assert(false);
            },
        }
        level = level + 1;
    }
    Ok(out)
}

/// One texture to fill: the unit it is bound on, its handle, and its levels.
pub struct ChannelUpload<'a> {
    pub unit: u32,
    pub texture: u32,
    pub levels: Vec<LevelUpload<'a>>,
}

pub open spec fn channel_matches(c: &ChannelUpload, unit: u32, texture: u32, img: &Image) -> bool {
    &&& c.unit == unit
    &&& c.texture == texture
    &&& c.levels@.len() == img.spec_mipmaps().len()
    &&& forall|k: int| 0 <= k < c.levels@.len() ==> level_upload_matches(&#[trigger] c.levels@[k], img, k)
}

fn channel<'a>(unit: u32, texture: u32, img: &'a Image) -> (r: Result<ChannelUpload<'a>, UploadError>)
    ensures
        r is Ok <==> levels_fit(img.spec_mipmaps()),
        r matches Ok(c) ==> channel_matches(&c, unit, texture, img),
{
    let levels = level_uploads(img)?;
    Ok(ChannelUpload { unit, texture, levels })
}

/// Texture handles of a basic material: diffuse and specular. Both are
/// handles that the API allocated, so neither is zero.
pub struct Basic {
    diffuse: u32,
    specular: u32,
}

impl Basic {
    #[verifier::type_invariant]
    spec fn inv(&self) -> bool {
        self.diffuse != 0 && self.specular != 0
    }

    pub closed spec fn spec_diffuse(&self) -> u32 {
        self.diffuse
    }

    pub closed spec fn spec_specular(&self) -> u32 {
        self.specular
    }

    /// The record of two allocated handles; `None` if either is zero.
    pub fn from_handles(diffuse: u32, specular: u32) -> (r: Option<Self>)
        ensures
            r is Some <==> diffuse != 0 && specular != 0,
            r matches Some(t) ==> t.spec_diffuse() == diffuse && t.spec_specular() == specular,
    {
        if diffuse != 0 && specular != 0 {
            Some(Basic { diffuse, specular })
        } else {
            None
        }
    }

    pub fn diffuse(&self) -> (r: u32)
        ensures
            r == self.spec_diffuse(),
            r != 0,
    {
        proof {
            use_type_invariant(self);
        }
        self.diffuse
    }

    pub fn specular(&self) -> (r: u32)
        ensures
            r == self.spec_specular(),
            r != 0,
    {
        proof {
            use_type_invariant(self);
        }
        self.specular
    }

    /// What filling these textures from `lm` takes: the diffuse map on unit
    /// 0, then the specular map on unit 1, each with all its levels.
    pub fn upload_all_textures<'a>(&self, lm: &'a lightmaps::Basic) -> (r: Result<
        Vec<ChannelUpload<'a>>,
        UploadError,
    >)
        ensures
            r is Ok <==> levels_fit(lm.diffuse.spec_mipmaps()) && levels_fit(
                lm.specular.spec_mipmaps(),
            ),
            r matches Ok(v) ==> {
                &&& v@.len() == 2
                &&& channel_matches(&v@[0], DIFFUSE_TEXTURE_UNIT, self.spec_diffuse(), &lm.diffuse)
                &&& channel_matches(&v@[1], SPECULAR_TEXTURE_UNIT, self.spec_specular(), &lm.specular)
            },
    {
        let d = channel(DIFFUSE_TEXTURE_UNIT, self.diffuse, &lm.diffuse)?;
        let s = channel(SPECULAR_TEXTURE_UNIT, self.specular, &lm.specular)?;
        let mut v: Vec<ChannelUpload<'a>> = Vec::new();
        v.push(d);
        v.push(s);
        Ok(v)
    }
}

/// Texture handles of a normal-mapped material: diffuse, specular and
/// normal, none of them zero.
pub struct NormalMapped {
    diffuse: u32,
    specular: u32,
    normal: u32,
}

impl NormalMapped {
    #[verifier::type_invariant]
    spec fn inv(&self) -> bool {
        self.diffuse != 0 && self.specular != 0 && self.normal != 0
    }

    pub closed spec fn spec_diffuse(&self) -> u32 {
        self.diffuse
    }

    pub closed spec fn spec_specular(&self) -> u32 {
        self.specular
    }

    pub closed spec fn spec_normal(&self) -> u32 {
        self.normal
    }

    /// The record of three allocated handles; `None` if any is zero.
    pub fn from_handles(diffuse: u32, specular: u32, normal: u32) -> (r: Option<Self>)
        ensures
            r is Some <==> diffuse != 0 && specular != 0 && normal != 0,
            r matches Some(t) ==> t.spec_diffuse() == diffuse && t.spec_specular() == specular
                && t.spec_normal() == normal,
    {
        if diffuse != 0 && specular != 0 && normal != 0 {
            Some(NormalMapped { diffuse, specular, normal })
        } else {
            None
        }
    }

    pub fn diffuse(&self) -> (r: u32)
        ensures
            r == self.spec_diffuse(),
            r != 0,
    {
        proof {
            use_type_invariant(self);
        }
        self.diffuse
    }

    pub fn specular(&self) -> (r: u32)
        ensures
            r == self.spec_specular(),
            r != 0,
    {
        proof {
            use_type_invariant(self);
        }
        self.specular
    }

    pub fn normal(&self) -> (r: u32)
        ensures
            r == self.spec_normal(),
            r != 0,
    {
        proof {
            use_type_invariant(self);
        }
        self.normal
    }

    /// What filling these textures from `lm` takes: diffuse on unit 0,
    /// specular on unit 1, normal on unit 2, each with all its levels.
    pub fn upload_all_textures<'a>(&self, lm: &'a lightmaps::NormalMapped) -> (r: Result<
        Vec<ChannelUpload<'a>>,
        UploadError,
    >)
        ensures
            r is Ok <==> levels_fit(lm.diffuse.spec_mipmaps()) && levels_fit(
                lm.specular.spec_mipmaps(),
            ) && levels_fit(lm.normal.spec_mipmaps()),
            r matches Ok(v) ==> {
                &&& v@.len() == 3
                &&& channel_matches(&v@[0], DIFFUSE_TEXTURE_UNIT, self.spec_diffuse(), &lm.diffuse)
                &&& channel_matches(&v@[1], SPECULAR_TEXTURE_UNIT, self.spec_specular(), &lm.specular)
                &&& channel_matches(&v@[2], NORMAL_TEXTURE_UNIT, self.spec_normal(), &lm.normal)
            },
    {
        let d = channel(DIFFUSE_TEXTURE_UNIT, self.diffuse, &lm.diffuse)?;
        let s = channel(SPECULAR_TEXTURE_UNIT, self.specular, &lm.specular)?;
        let n = channel(NORMAL_TEXTURE_UNIT, self.normal, &lm.normal)?;
        let mut v: Vec<ChannelUpload<'a>> = Vec::new();
        v.push(d);
        v.push(s);
        v.push(n);
        Ok(v)
    }
}

/// The texture handles of either kind of material.
pub enum Textures {
    Basic(Basic),
    NormalMapped(NormalMapped),
}

impl Textures {
    /// What filling these textures from `lm` takes, as the record of the
    /// same kind does. Fails with `KindMismatch` when the handles and the
    /// maps are of different kinds of material.
    pub fn upload_all_textures<'a>(&self, lm: &'a lightmaps::LightMaps) -> (r: Result<
        Vec<ChannelUpload<'a>>,
        UploadError,
    >)
        ensures
            match (self, lm) {
                (Textures::Basic(t), lightmaps::LightMaps::Basic(m)) => (r is Ok <==> levels_fit(
                    m.diffuse.spec_mipmaps(),
                ) && levels_fit(m.specular.spec_mipmaps())) && (r matches Ok(v) ==> {
                    &&& v@.len() == 2
                    &&& channel_matches(&v@[0], DIFFUSE_TEXTURE_UNIT, t.spec_diffuse(), &m.diffuse)
                    &&& channel_matches(&v@[1], SPECULAR_TEXTURE_UNIT, t.spec_specular(), &m.specular)
                }),
                (Textures::NormalMapped(t), lightmaps::LightMaps::NormalMapped(m)) => (r is Ok
                    <==> levels_fit(m.diffuse.spec_mipmaps()) && levels_fit(
                    m.specular.spec_mipmaps(),
                ) && levels_fit(m.normal.spec_mipmaps())) && (r matches Ok(v) ==> {
                    &&& v@.len() == 3
                    &&& channel_matches(&v@[0], DIFFUSE_TEXTURE_UNIT, t.spec_diffuse(), &m.diffuse)
                    &&& channel_matches(&v@[1], SPECULAR_TEXTURE_UNIT, t.spec_specular(), &m.specular)
                    &&& channel_matches(&v@[2], NORMAL_TEXTURE_UNIT, t.spec_normal(), &m.normal)
                }),
                _ => r == Err::<Vec<ChannelUpload<'a>>, UploadError>(UploadError::KindMismatch),
            },
    {
        match (self, lm) {
            (Textures::Basic(t), lightmaps::LightMaps::Basic(m)) => t.upload_all_textures(m),
            (Textures::NormalMapped(t), lightmaps::LightMaps::NormalMapped(m)) => t.upload_all_textures(m),
            _ => Err(UploadError::KindMismatch),
        }
    }
}

} // verus!
