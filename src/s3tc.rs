use vstd::prelude::*;

verus! {

/// Size in bytes of the container header that precedes the payload.
pub const HEADER_SIZE: usize = 128;

/// OpenGL enum value of `COMPRESSED_RGB_S3TC_DXT1_EXT`.
pub const GL_COMPRESSED_RGB_S3TC_DXT1_EXT: u32 = 0x83F0;

/// OpenGL enum value of `COMPRESSED_RGBA_S3TC_DXT3_EXT`.
pub const GL_COMPRESSED_RGBA_S3TC_DXT3_EXT: u32 = 0x83F2;

/// OpenGL enum value of `COMPRESSED_RGBA_S3TC_DXT5_EXT`.
pub const GL_COMPRESSED_RGBA_S3TC_DXT5_EXT: u32 = 0x83F3;

/// The block-compression formats that the decoder understands.
#[derive(Clone, Copy, Debug, PartialEq, Eq, Structural)]
pub enum Format {
    DXT1,
    DXT3,
    DXT5,
}

pub open spec fn spec_block_size(f: Format) -> u32 {
    match f {
        Format::DXT1 => 8,
        _ => 16,
    }
}

pub open spec fn spec_gl_format(f: Format) -> u32 {
    match f {
        Format::DXT1 => GL_COMPRESSED_RGB_S3TC_DXT1_EXT,
        Format::DXT3 => GL_COMPRESSED_RGBA_S3TC_DXT3_EXT,
        Format::DXT5 => GL_COMPRESSED_RGBA_S3TC_DXT5_EXT,
    }
}

impl Format {
    /// The OpenGL internal format that takes blocks of this format as they are.
    pub fn gl_format(&self) -> (r: u32)
        ensures
            r == spec_gl_format(*self),
    {
        match self {
            Format::DXT1 => GL_COMPRESSED_RGB_S3TC_DXT1_EXT,
            Format::DXT3 => GL_COMPRESSED_RGBA_S3TC_DXT3_EXT,
            Format::DXT5 => GL_COMPRESSED_RGBA_S3TC_DXT5_EXT,
        }
    }

    /// Bytes per 4x4 block of texels.
    pub fn block_size(&self) -> (r: u32)
        ensures
            r == spec_block_size(*self),
    {
        match self {
            Format::DXT1 => 8,
            _ => 16,
        }
    }
}

/// Where one mipmap level lies in the payload, and its dimensions.
#[derive(Clone, Copy, Debug, PartialEq, Eq, Structural)]
pub struct S3MipmapDesc {
    pub offset: usize,
    pub size: usize,
    pub width: i32,
    pub height: i32,
}

/// One mipmap level: its dimensions and its compressed bytes.
pub struct S3MipmapView<'a> {
    pub width: i32,
    pub height: i32,
    pub data: &'a [u8],
}

#[derive(Debug)]
pub enum ImageError {
    UnsupportedCompression,
    InvalidData(String),
}

// ---------------------------------------------------------------------------
// Model of the container
// ---------------------------------------------------------------------------

/// Little-endian 32-bit field at byte `i`.
pub open spec fn le_u32(b: Seq<u8>, i: int) -> int {
    b[i] as int + 256 * (b[i + 1] as int) + 65536 * (b[i + 2] as int) + 16777216 * (b[i + 3] as int)
}

/// The buffer starts with the tag `"DDS "`.
pub open spec fn has_magic(b: Seq<u8>) -> bool {
    &&& b.len() >= 4
    &&& b[0] == 68u8
    &&& b[1] == 68u8
    &&& b[2] == 83u8
    &&& b[3] == 32u8
}

/// The buffer holds a whole header and starts with the tag.
pub open spec fn header_ok(b: Seq<u8>) -> bool {
    b.len() >= HEADER_SIZE && has_magic(b)
}

pub open spec fn hdr_width(b: Seq<u8>) -> int {
    le_u32(b, 12)
}

pub open spec fn hdr_height(b: Seq<u8>) -> int {
    le_u32(b, 16)
}

pub open spec fn hdr_linear_size(b: Seq<u8>) -> int {
    le_u32(b, 20)
}

pub open spec fn hdr_mipmap_count(b: Seq<u8>) -> int {
    le_u32(b, 28)
}

/// The compression format named by the code at byte 84: `DXT1`, `DXT5`, and
/// `DXT3` or its premultiplied twin `DXT2`, which has the same block layout.
pub open spec fn hdr_format(b: Seq<u8>) -> Option<Format> {
    if b[84] == 68u8 && b[85] == 88u8 && b[86] == 84u8 {
        if b[87] == 49u8 {
            Some(Format::DXT1)
        } else if b[87] == 50u8 || b[87] == 51u8 {
            Some(Format::DXT3)
        } else if b[87] == 53u8 {
            Some(Format::DXT5)
        } else {
            None
        }
    } else {
        None
    }
}

/// A dimension halved, rounding down, but never below one.
pub open spec fn half_dim(d: nat) -> nat {
    if d / 2 == 0 {
        1
    } else {
        d / 2
    }
}

/// Dimension of level `k` of a chain whose base dimension is `d`.
pub open spec fn level_dim(d: nat, k: nat) -> nat
    decreases k,
{
    if k == 0 {
        d
    } else {
        half_dim(level_dim(d, (k - 1) as nat))
    }
}

/// Bytes of a `w` by `h` level: `ceil(w/4) * ceil(h/4)` blocks.
pub open spec fn level_size(w: nat, h: nat, bs: nat) -> nat {
    ((w + 3) / 4) * ((h + 3) / 4) * bs
}

/// Bytes of level `k` of the chain.
pub open spec fn chain_level_size(w: nat, h: nat, bs: nat, k: nat) -> nat {
    level_size(level_dim(w, k), level_dim(h, k), bs)
}

/// Offset of level `k`: the sizes of the levels before it, added up.
pub open spec fn level_offset(w: nat, h: nat, bs: nat, k: nat) -> nat
    decreases k,
{
    if k == 0 {
        0
    } else {
        level_offset(w, h, bs, (k - 1) as nat) + chain_level_size(w, h, bs, (k - 1) as nat)
    }
}

/// The largest value of an `i32`.
pub open spec fn i32_max() -> int {
    0x7fff_ffff
}

/// Everything the header says fits: both dimensions are positive and fit an
/// `i32`, and the payload holds every level of the chain.
pub open spec fn chain_ok(b: Seq<u8>, f: Format) -> bool {
    &&& 1 <= hdr_width(b) <= i32_max()
    &&& 1 <= hdr_height(b) <= i32_max()
    &&& level_offset(
        hdr_width(b) as nat,
        hdr_height(b) as nat,
        spec_block_size(f) as nat,
        hdr_mipmap_count(b) as nat,
    ) <= b.len() - HEADER_SIZE
}

/// The buffer is a container that decodes.
pub open spec fn is_valid_container(b: Seq<u8>) -> bool {
    &&& header_ok(b)
    &&& hdr_format(b) is Some
    &&& chain_ok(b, hdr_format(b)->Some_0)
}

/// Descriptor of level `k` of the chain of `b`.
pub open spec fn spec_desc(b: Seq<u8>, k: nat) -> S3MipmapDesc {
    let w = hdr_width(b) as nat;
    let h = hdr_height(b) as nat;
    let bs = spec_block_size(hdr_format(b)->Some_0) as nat;
    S3MipmapDesc {
        offset: level_offset(w, h, bs, k) as usize,
        size: chain_level_size(w, h, bs, k) as usize,
        width: level_dim(w, k) as i32,
        height: level_dim(h, k) as i32,
    }
}

// ---------------------------------------------------------------------------
// Facts about the chain
// ---------------------------------------------------------------------------

proof fn lemma_level_dim_bounds(d: nat, k: nat)
    requires
        d >= 1,
    ensures
        1 <= level_dim(d, k) <= d,
    decreases k,
{
    if k > 0 {
        lemma_level_dim_bounds(d, (k - 1) as nat);
    }
}

proof fn lemma_level_offset_mono(w: nat, h: nat, bs: nat, j: nat, k: nat)
    requires
        j <= k,
    ensures
        level_offset(w, h, bs, j) <= level_offset(w, h, bs, k),
    decreases k - j,
{
    if j < k {
        lemma_level_offset_mono(w, h, bs, j, (k - 1) as nat);
    }
}

/// A decoded image has one descriptor per level that the header names; level
/// `k` holds `ceil(w_k/4) * ceil(h_k/4)` blocks, where `w_k` and `h_k` halve
/// from the base dimensions (rounding down, never below one); the levels lie
/// one after another from offset zero; and the last one ends within the
/// payload, exactly at its end when the payload holds nothing but the chain.
pub proof fn lemma_decoded_chain(img: Image, b: Seq<u8>)
    requires
        b.len() <= usize::MAX,
        is_valid_container(b),
        img.decoded_from(b),
    ensures
        img.spec_mipmaps().len() == hdr_mipmap_count(b),
        forall|k: int|
            0 <= k < img.spec_mipmaps().len() ==> {
                let d = #[trigger] img.spec_mipmaps()[k];
                &&& d.width as int == level_dim(hdr_width(b) as nat, k as nat)
                &&& d.height as int == level_dim(hdr_height(b) as nat, k as nat)
                &&& d.size as int == level_size(
                    d.width as nat,
                    d.height as nat,
                    img.spec_block_size() as nat,
                )
            },
        img.spec_mipmaps().len() > 0 ==> img.spec_mipmaps()[0].offset == 0,
        forall|k: int|
            0 <= k < img.spec_mipmaps().len() - 1 ==> #[trigger] img.spec_mipmaps()[k + 1].offset
                == img.spec_mipmaps()[k].offset + img.spec_mipmaps()[k].size,
        img.spec_mipmaps().len() > 0 ==> {
            let last = img.spec_mipmaps().last();
            &&& last.offset + last.size <= img.spec_data().len()
            &&& img.spec_data().len() == level_offset(
                hdr_width(b) as nat,
                hdr_height(b) as nat,
                img.spec_block_size() as nat,
                hdr_mipmap_count(b) as nat,
            ) ==> last.offset + last.size == img.spec_data().len()
        },
{
    let w = hdr_width(b) as nat;
    let h = hdr_height(b) as nat;
    let bs = img.spec_block_size() as nat;
    let n = hdr_mipmap_count(b) as nat;
    let ms = img.spec_mipmaps();
    assert forall|k: int| 0 <= k <= n implies #[trigger] level_offset(w, h, bs, k as nat) <= usize::MAX by {
        lemma_level_offset_mono(w, h, bs, k as nat, n);
    }
    assert forall|k: int| 0 <= k < ms.len() implies {
        let d = #[trigger] ms[k];
        &&& d.offset as int == level_offset(w, h, bs, k as nat)
        &&& d.size as int == chain_level_size(w, h, bs, k as nat)
        &&& d.width as int == level_dim(w, k as nat)
        &&& d.height as int == level_dim(h, k as nat)
    } by {
        lemma_level_offset_mono(w, h, bs, (k + 1) as nat, n);
        lemma_level_dim_bounds(w, k as nat);
        lemma_level_dim_bounds(h, k as nat);
    }
    assert forall|k: int| 0 <= k < ms.len() - 1 implies #[trigger] ms[k + 1].offset == ms[k].offset
        + ms[k].size by {
        assert(ms[k + 1].offset as int == level_offset(w, h, bs, (k + 1) as nat));
    }
    if ms.len() > 0 {
        let k = ms.len() - 1;
        assert(ms[k].offset as int == level_offset(w, h, bs, k as nat));
        assert(level_offset(w, h, bs, (k + 1) as nat) == level_offset(w, h, bs, k as nat)
            + chain_level_size(w, h, bs, k as nat));
    }
}

// ---------------------------------------------------------------------------
// Decoding
// ---------------------------------------------------------------------------

fn read_le_u32(b: &Vec<u8>, i: usize) -> (r: u32)
    requires
        i + 4 <= HEADER_SIZE,
        HEADER_SIZE <= b@.len(),
    ensures
        r as int == le_u32(b@, i as int),
{
    let v: u64 = (b[i] as u64) + 256 * (b[i + 1] as u64) + 65536 * (b[i + 2] as u64) + 16777216 * (
    b[i + 3] as u64);
    v as u32
}

fn read_format(b: &Vec<u8>) -> (r: Option<Format>)
    requires
        b@.len() >= HEADER_SIZE,
    ensures
        r == hdr_format(b@),
{
    if b[84] == 68u8 && b[85] == 88u8 && b[86] == 84u8 {
        if b[87] == 49u8 {
            Some(Format::DXT1)
        } else if b[87] == 50u8 || b[87] == 51u8 {
            Some(Format::DXT3)
        } else if b[87] == 53u8 {
            Some(Format::DXT5)
        } else {
            None
        }
    } else {
        None
    }
}

fn invalid(msg: &str) -> (r: ImageError)
    ensures
        r is InvalidData,
{
    ImageError::InvalidData(msg.to_owned())
}

/// An image as the container holds it: block-compressed bytes and the
/// descriptors of its mipmap chain, largest level first.
pub struct Image {
    width: i32,
    height: i32,
    linear_size: i32,
    format: Format,
    block_size: u32,
    data: Vec<u8>,
    mipmaps: Vec<S3MipmapDesc>,
}

/// Every descriptor lies inside `data`.
pub open spec fn descs_within(descs: Seq<S3MipmapDesc>, len: nat) -> bool {
    forall|i: int| 0 <= i < descs.len() ==> #[trigger] descs[i].offset + descs[i].size <= len
}

impl Image {
    #[verifier::type_invariant]
    spec fn inv(&self) -> bool {
        descs_within(self.mipmaps@, self.data@.len())
    }

    pub closed spec fn spec_width(&self) -> i32 {
        self.width
    }

    pub closed spec fn spec_height(&self) -> i32 {
        self.height
    }

    pub closed spec fn spec_linear_size(&self) -> i32 {
        self.linear_size
    }

    pub closed spec fn spec_format(&self) -> Format {
        self.format
    }

    pub closed spec fn spec_block_size(&self) -> u32 {
        self.block_size
    }

    pub closed spec fn spec_data(&self) -> Seq<u8> {
        self.data@
    }

    pub closed spec fn spec_mipmaps(&self) -> Seq<S3MipmapDesc> {
        self.mipmaps@
    }

    /// What decoding `b` gives: the header's fields, the payload after the
    /// header, and one descriptor per level of the chain.
    pub open spec fn decoded_from(&self, b: Seq<u8>) -> bool {
        let f = hdr_format(b)->Some_0;
        &&& self.spec_width() as int == hdr_width(b)
        &&& self.spec_height() as int == hdr_height(b)
        &&& self.spec_linear_size() == hdr_linear_size(b) as u32 as i32
        &&& self.spec_format() == f
        &&& self.spec_block_size() == spec_block_size(f)
        &&& self.spec_data() == b.subrange(HEADER_SIZE as int, b.len() as int)
        &&& self.spec_mipmaps().len() == hdr_mipmap_count(b)
        &&& forall|k: int|
            0 <= k < self.spec_mipmaps().len() ==> #[trigger] self.spec_mipmaps()[k]
                == spec_desc(b, k as nat)
    }

    /// Decodes a block-compressed image container.
    ///
    /// Fails with `InvalidData` when the buffer is shorter than the header,
    /// does not start with the tag, has a zero or oversized dimension, or
    /// holds fewer bytes than its mipmap chain needs; with
    /// `UnsupportedCompression` when the header is sound but names a format
    /// that is not one of the three block formats.
    pub fn from_dds_buffer(mut header: Vec<u8>) -> (r: Result<Image, ImageError>)
        ensures
            r is Ok <==> is_valid_container(header@),
            (r matches Err(ImageError::UnsupportedCompression)) <==> (header_ok(header@)
                && hdr_format(header@) is None),
            r matches Ok(img) ==> img.decoded_from(header@),
            !has_magic(header@) ==> r matches Err(ImageError::InvalidData(_)),
    {
        let len = header.len();
        if len < HEADER_SIZE {
            return Err(invalid("buffer is shorter than the container header"));
        }
        if !(header[0] == 68u8 && header[1] == 68u8 && header[2] == 83u8 && header[3] == 32u8) {
            return Err(invalid("container tag does not match"));
        }
        let format = match read_format(&header) {
            Some(f) => f,
            None => {
                return Err(ImageError::UnsupportedCompression);
            },
        };
        let block_size = format.block_size();
        let width = read_le_u32(&header, 12);
        let height = read_le_u32(&header, 16);
        let linear_size = read_le_u32(&header, 20);
        let mipmap_count = read_le_u32(&header, 28);
        if width == 0 || height == 0 || width > 0x7fff_ffff || height > 0x7fff_ffff {
            return Err(invalid("image dimensions are out of range"));
        }
        let ghost b = header@;
        let ghost w = width as nat;
        let ghost h = height as nat;
        let ghost bs = block_size as nat;
        let payload_len: usize = len - HEADER_SIZE;

        let mut mipmaps: Vec<S3MipmapDesc> = Vec::new();
        let mut mip_w: u32 = width;
        let mut mip_h: u32 = height;
        let mut mip_offset: usize = 0;
        let mut level: u32 = 0;
        while level < mipmap_count
            invariant
                b == header@,
                b.len() == len,
                len >= HEADER_SIZE,
                payload_len == len - HEADER_SIZE,
                header_ok(b),
                hdr_format(b) == Some(format),
                w == hdr_width(b),
                h == hdr_height(b),
                bs == spec_block_size(format),
                bs == block_size,
                block_size == spec_block_size(format),
                1 <= w <= i32_max(),
                1 <= h <= i32_max(),
                mipmap_count == hdr_mipmap_count(b),
                level <= mipmap_count,
                mip_w as nat == level_dim(w, level as nat),
                mip_h as nat == level_dim(h, level as nat),
                mip_offset as nat == level_offset(w, h, bs, level as nat),
                mip_offset <= payload_len,
                mipmaps@.len() == level,
                forall|k: int| 0 <= k < level ==> #[trigger] mipmaps@[k] == spec_desc(b, k as nat),
            decreases mipmap_count - level,
        {
            proof {
                lemma_level_dim_bounds(w, level as nat);
                lemma_level_dim_bounds(h, level as nat);
            }
            let bw: u64 = (mip_w as u64 + 3) / 4;
            let bh: u64 = (mip_h as u64 + 3) / 4;
            assert(bw * bh <= 0x0400_0000_0000_0000) by (nonlinear_arith)
                requires
                    bw <= 0x2000_0000,
                    bh <= 0x2000_0000,
            ;
            assert(bw * bh * (block_size as u64) <= 0x4000_0000_0000_0000) by (nonlinear_arith)
                requires
                    bw * bh <= 0x0400_0000_0000_0000,
                    block_size <= 16,
            ;
            let mip_size: u64 = bw * bh * (block_size as u64);
            assert(bw as nat == (level_dim(w, level as nat) + 3) / 4);
            assert(bh as nat == (level_dim(h, level as nat) + 3) / 4);
            assert(mip_size as nat == chain_level_size(w, h, bs, level as nat));
            if mip_size > (payload_len - mip_offset) as u64 {
                proof {
                    lemma_level_offset_mono(w, h, bs, (level + 1) as nat, mipmap_count as nat);
                }
                return Err(invalid("payload is shorter than the mipmap chain"));
            }
            let size = mip_size as usize;
            mipmaps.push(
                S3MipmapDesc { offset: mip_offset, size, width: mip_w as i32, height: mip_h as i32 },
            );
            mip_offset = mip_offset + size;
            mip_w = if mip_w / 2 == 0 {
                1
            } else {
                mip_w / 2
            };
            mip_h = if mip_h / 2 == 0 {
                1
            } else {
                mip_h / 2
            };
            level = level + 1;
        }
        let data: Vec<u8> = header.split_off(HEADER_SIZE);
        assert(data@ == b.subrange(HEADER_SIZE as int, b.len() as int));
        assert(descs_within(mipmaps@, data@.len())) by {
            assert forall|i: int| 0 <= i < mipmaps@.len() implies #[trigger] mipmaps@[i].offset
                + mipmaps@[i].size <= data@.len() by {
                lemma_level_offset_mono(w, h, bs, (i + 1) as nat, mipmap_count as nat);
            }
        }
        Ok(
            Image {
                width: width as i32,
                height: height as i32,
                linear_size: #[verifier::truncate] (linear_size as i32),
                format,
                block_size,
                data,
                mipmaps,
            },
        )
    }
}

impl Image {
    pub fn width(&self) -> (r: i32)
        ensures
            r == self.spec_width(),
    {
        self.width
    }

    pub fn height(&self) -> (r: i32)
        ensures
            r == self.spec_height(),
    {
        self.height
    }

    pub fn linear_size(&self) -> (r: i32)
        ensures
            r == self.spec_linear_size(),
    {
        self.linear_size
    }

    pub fn format(&self) -> (r: Format)
        ensures
            r == self.spec_format(),
    {
        self.format
    }

    pub fn block_size(&self) -> (r: u32)
        ensures
            r == self.spec_block_size(),
    {
        self.block_size
    }

    /// The compressed payload, all levels one after another.
    pub fn data(&self) -> (r: &[u8])
        ensures
            r@ == self.spec_data(),
    {
        self.data.as_slice()
    }

    /// The descriptors of the mipmap chain, largest level first.
    pub fn mipmaps(&self) -> (r: &[S3MipmapDesc])
        ensures
            r@ == self.spec_mipmaps(),
            descs_within(r@, self.spec_data().len()),
    {
        proof {
            use_type_invariant(self);
        }
        self.mipmaps.as_slice()
    }

    /// A fresh walk over the levels of the chain, largest first. It reads
    /// the image and leaves it as it is, so a walk can be started any
    /// number of times.
    pub fn mipmap_iter(&self) -> (r: S3MipmapIter<'_>)
        ensures
            r.spec_data() == self.spec_data(),
            r.spec_descs() == self.spec_mipmaps(),
            r.spec_pos() == 0,
    {
        proof {
            use_type_invariant(self);
        }
        S3MipmapIter::new(&self.data, self.mipmaps.as_slice())
    }
}

/// A walk over the mipmap levels of an image, yielding a view of each.
pub struct S3MipmapIter<'a> {
    data: &'a Vec<u8>,
    descs: &'a [S3MipmapDesc],
    pos: usize,
}

/// The view that descriptor `d` gives of `data`.
pub open spec fn view_of(data: Seq<u8>, d: S3MipmapDesc) -> (int, int, Seq<u8>) {
    (d.width as int, d.height as int, data.subrange(d.offset as int, d.offset + d.size))
}

impl<'a> S3MipmapIter<'a> {
    #[verifier::type_invariant]
    spec fn inv(&self) -> bool {
        &&& descs_within(self.descs@, self.data@.len())
        &&& self.pos <= self.descs@.len()
    }

    pub closed spec fn spec_data(&self) -> Seq<u8> {
        self.data@
    }

    pub closed spec fn spec_descs(&self) -> Seq<S3MipmapDesc> {
        self.descs@
    }

    /// How many levels have been handed out.
    pub closed spec fn spec_pos(&self) -> nat {
        self.pos as nat
    }

    /// A walk over `descs`, from the first, each a range of `data`.
    pub fn new(data: &'a Vec<u8>, descs: &'a [S3MipmapDesc]) -> (r: Self)
        requires
            descs_within(descs@, data@.len()),
        ensures
            r.spec_data() == data@,
            r.spec_descs() == descs@,
            r.spec_pos() == 0,
    {
        S3MipmapIter { data, descs, pos: 0 }
    }

    /// The next level, or `None` once every level has been handed out.
    pub fn next(&mut self) -> (r: Option<S3MipmapView<'a>>)
        ensures
            final(self).spec_data() == old(self).spec_data(),
            final(self).spec_descs() == old(self).spec_descs(),
            old(self).spec_pos() < old(self).spec_descs().len() ==> {
                &&& final(self).spec_pos() == old(self).spec_pos() + 1
                &&& r matches Some(v) && (v.width as int, v.height as int, v.data@) == view_of(
                    old(self).spec_data(),
                    old(self).spec_descs()[old(self).spec_pos() as int],
                )
            },
            old(self).spec_pos() >= old(self).spec_descs().len() ==> {
                &&& final(self).spec_pos() == old(self).spec_pos()
                &&& r is None
            },
    {
        proof {
            use_type_invariant(&*self);
        }
        if self.pos < self.descs.len() {
            let d = self.descs[self.pos];
            let n: usize = self.data.len();
            assert(d.offset + d.size <= n);
            let bytes: &'a [u8] = &self.data.as_slice()[d.offset..d.offset + d.size];
            self.pos = self.pos + 1;
            Some(S3MipmapView { width: d.width, height: d.height, data: bytes })
        } else {
            None
        }
    }
}

} // verus!
