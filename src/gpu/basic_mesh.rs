use vstd::prelude::*;
use crate::gpu::textures;
use crate::gpu::SIZEI_MAX;

verus! {

/// Buffer handles of a basic mesh, one per stream; none of them zero.
pub struct Buffers {
    index: u32,
    position: u32,
    normal: u32,
    uv: u32,
}

impl Buffers {
    #[verifier::type_invariant]
    spec fn inv(&self) -> bool {
        self.index != 0 && self.position != 0 && self.normal != 0 && self.uv != 0
    }

    pub closed spec fn spec_index(&self) -> u32 {
        self.index
    }

    pub closed spec fn spec_position(&self) -> u32 {
        self.position
    }

    pub closed spec fn spec_normal(&self) -> u32 {
        self.normal
    }

    pub closed spec fn spec_uv(&self) -> u32 {
        self.uv
    }

    /// The record of allocated handles; `None` if any is zero.
    pub fn from_handles(index: u32, position: u32, normal: u32, uv: u32) -> (r: Option<Self>)
        ensures
            r is Some <==> index != 0 && position != 0 && normal != 0 && uv != 0,
            r matches Some(b) ==> b.spec_index() == index && b.spec_position() == position && b.spec_normal() == normal && b.spec_uv() == uv,
    {
        if index != 0 && position != 0 && normal != 0 && uv != 0 {
            Some(Buffers { index, position, normal, uv })
        } else {
            None
        }
    }

    pub fn index(&self) -> (r: u32)
        ensures
            r == self.spec_index(),
            r != 0,
    {
        proof {
            use_type_invariant(self);
        }
        self.index
    }

    pub fn position(&self) -> (r: u32)
        ensures
            r == self.spec_position(),
            r != 0,
    {
        proof {
            use_type_invariant(self);
        }
        self.position
    }

    pub fn normal(&self) -> (r: u32)
        ensures
            r == self.spec_normal(),
            r != 0,
    {
        proof {
            use_type_invariant(self);
        }
        self.normal
    }

    pub fn uv(&self) -> (r: u32)
        ensures
            r == self.spec_uv(),
            r != 0,
    {
        proof {
            use_type_invariant(self);
        }
        self.uv
    }

}

/// A basic mesh on the GPU: its vertex array, its buffers, its
/// textures, and how many indices a draw call reads.
pub struct Mesh {
    vao: u32,
    element_count: i32,
    buffers: Buffers,
    textures: textures::Basic,
}

impl Mesh {
    #[verifier::type_invariant]
    spec fn inv(&self) -> bool {
        self.vao != 0 && self.element_count >= 0
    }

    pub closed spec fn spec_vao(&self) -> u32 {
        self.vao
    }

    pub closed spec fn spec_element_count(&self) -> i32 {
        self.element_count
    }

    pub closed spec fn spec_buffers(&self) -> &Buffers {
        &self.buffers
    }

    pub closed spec fn spec_textures(&self) -> &textures::Basic {
        &self.textures
    }

    /// The mesh that uploading a CPU mesh of `index_count` indices gave:
    /// its draw calls read exactly `index_count` indices. `None` when the
    /// vertex array handle is zero or the count does not fit a `GLsizei`.
    pub fn from_upload(vao: u32, buffers: Buffers, textures: textures::Basic, index_count: usize) -> (r:
        Option<Self>)
        ensures
            r is Some <==> vao != 0 && index_count <= SIZEI_MAX,
            r matches Some(m) ==> {
                &&& m.spec_vao() == vao
                &&& m.spec_element_count() as int == index_count as int
                &&& *m.spec_buffers() == buffers
                &&& *m.spec_textures() == textures
            },
    {
        if vao != 0 && index_count <= SIZEI_MAX {
            Some(Mesh { vao, element_count: index_count as i32, buffers, textures })
        } else {
            None
        }
    }

    pub fn vao(&self) -> (r: u32)
        ensures
            r == self.spec_vao(),
            r != 0,
    {
        proof {
            use_type_invariant(self);
        }
        self.vao
    }

    /// How many indices a draw call of this mesh reads.
    pub fn element_count(&self) -> (r: i32)
        ensures
            r == self.spec_element_count(),
            r >= 0,
    {
        proof {
            use_type_invariant(self);
        }
        self.element_count
    }

    pub fn buffers(&self) -> (r: &Buffers)
        ensures
            r == self.spec_buffers(),
    {
        &self.buffers
    }

    pub fn textures(&self) -> (r: &textures::Basic)
        ensures
            r == self.spec_textures(),
    {
        &self.textures
    }
}

} // verus!
