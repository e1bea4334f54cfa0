pub mod mesh_data;

use vstd::prelude::*;
use crate::gpu::{basic_mesh, normal_mapped_mesh, DIFFUSE_TEXTURE_UNIT, NORMAL_TEXTURE_UNIT, SPECULAR_TEXTURE_UNIT};
use crate::resource::{ResourceID, ResourceType, INDEX_LIMIT};
use crate::shader::{binds, location_of, ShaderIssue, ShaderProgram};
use crate::uniform::{BoolUniform, FloatUniform, Mat4Uniform, Uniform, UniformKind, Vec3Uniform};

verus! {

fn mat4(p: &ShaderProgram, name: &str) -> (r: Result<Mat4Uniform, ShaderIssue>)
    ensures
        r is Ok <==> binds(p.spec_uniforms(), name@, UniformKind::Mat4),
        r matches Ok(h) ==> h.spec_def().spec_id() == location_of(p.spec_uniforms(), name@),
{
    let u = p.uniform_of_kind(name, UniformKind::Mat4)?;
    match Mat4Uniform::from_uniform(u) {
        Some(h) => Ok(h),
        None => Err(ShaderIssue::MissingUniform(name.to_owned())),
    }
}

fn vec3(p: &ShaderProgram, name: &str) -> (r: Result<Vec3Uniform, ShaderIssue>)
    ensures
        r is Ok <==> binds(p.spec_uniforms(), name@, UniformKind::Vec3),
        r matches Ok(h) ==> h.spec_def().spec_id() == location_of(p.spec_uniforms(), name@),
{
    let u = p.uniform_of_kind(name, UniformKind::Vec3)?;
    match Vec3Uniform::from_uniform(u) {
        Some(h) => Ok(h),
        None => Err(ShaderIssue::MissingUniform(name.to_owned())),
    }
}

fn float(p: &ShaderProgram, name: &str) -> (r: Result<FloatUniform, ShaderIssue>)
    ensures
        r is Ok <==> binds(p.spec_uniforms(), name@, UniformKind::Float),
        r matches Ok(h) ==> h.spec_def().spec_id() == location_of(p.spec_uniforms(), name@),
{
    let u = p.uniform_of_kind(name, UniformKind::Float)?;
    match FloatUniform::from_uniform(u) {
        Some(h) => Ok(h),
        None => Err(ShaderIssue::MissingUniform(name.to_owned())),
    }
}

fn boolean(p: &ShaderProgram, name: &str) -> (r: Result<BoolUniform, ShaderIssue>)
    ensures
        r is Ok <==> binds(p.spec_uniforms(), name@, UniformKind::Bool),
        r matches Ok(h) ==> h.spec_def().spec_id() == location_of(p.spec_uniforms(), name@),
{
    let u = p.uniform_of_kind(name, UniformKind::Bool)?;
    match BoolUniform::from_uniform(u) {
        Some(h) => Ok(h),
        None => Err(ShaderIssue::MissingUniform(name.to_owned())),
    }
}

/// The main program and typed handles of every uniform the renderer writes.
pub struct Render3D {
    pub main_shader: ShaderProgram,
    pub model_mat_unif: Mat4Uniform,
    pub view_mat_unif: Mat4Uniform,
    pub modelview_mat_unif: Mat4Uniform,
    pub proj_mat_unif: Mat4Uniform,
    pub mvp_mat_unif: Mat4Uniform,
    pub normal_mat_unif: Mat4Uniform,
    pub use_normalmap_unif: BoolUniform,
    pub sun_intensity_unif: FloatUniform,
    pub sun_direction_unif: Vec3Uniform,
    pub sun_ambient_unif: Vec3Uniform,
    pub sun_diffuse_unif: Vec3Uniform,
    pub sun_specular_unif: Vec3Uniform,
    pub lamp_position_unif: Vec3Uniform,
    pub lamp_ambient_unif: Vec3Uniform,
    pub lamp_diffuse_unif: Vec3Uniform,
    pub lamp_specular_unif: Vec3Uniform,
}

/// The program offers every uniform the renderer binds, each with the type
/// the renderer writes.
pub open spec fn offers_render_uniforms(us: Seq<Uniform>) -> bool {
    &&& binds(us, "model_mat"@, UniformKind::Mat4)
    &&& binds(us, "view_mat"@, UniformKind::Mat4)
    &&& binds(us, "modelview_mat"@, UniformKind::Mat4)
    &&& binds(us, "proj_mat"@, UniformKind::Mat4)
    &&& binds(us, "mvp_mat"@, UniformKind::Mat4)
    &&& binds(us, "normal_mat"@, UniformKind::Mat4)
    &&& binds(us, "use_normalmap"@, UniformKind::Bool)
    &&& binds(us, "sun.intensity"@, UniformKind::Float)
    &&& binds(us, "sun.direction"@, UniformKind::Vec3)
    &&& binds(us, "sun.ambient"@, UniformKind::Vec3)
    &&& binds(us, "sun.diffuse"@, UniformKind::Vec3)
    &&& binds(us, "sun.specular"@, UniformKind::Vec3)
    &&& binds(us, "lamp.position"@, UniformKind::Vec3)
    &&& binds(us, "lamp.ambient"@, UniformKind::Vec3)
    &&& binds(us, "lamp.diffuse"@, UniformKind::Vec3)
    &&& binds(us, "lamp.specular"@, UniformKind::Vec3)
}

impl Render3D {
    /// Binds the renderer's uniforms of `program` by name, each as the type
    /// the renderer writes. Fails, handing out no handle, when one is
    /// missing or the program reports it with another type.
    pub fn bind(program: ShaderProgram) -> (r: Result<Render3D, ShaderIssue>)
        ensures
            r is Ok <==> offers_render_uniforms(program.spec_uniforms()),
            r matches Ok(rd) ==> {
                let us = program.spec_uniforms();
                &&& rd.main_shader.spec_id() == program.spec_id()
                &&& rd.main_shader.spec_uniforms() == us
                &&& rd.model_mat_unif.spec_def().spec_id() == location_of(us, "model_mat"@)
                &&& rd.modelview_mat_unif.spec_def().spec_id() == location_of(us, "modelview_mat"@)
                &&& rd.proj_mat_unif.spec_def().spec_id() == location_of(us, "proj_mat"@)
                &&& rd.mvp_mat_unif.spec_def().spec_id() == location_of(us, "mvp_mat"@)
                &&& rd.normal_mat_unif.spec_def().spec_id() == location_of(us, "normal_mat"@)
                &&& rd.use_normalmap_unif.spec_def().spec_id() == location_of(us, "use_normalmap"@)
                &&& rd.view_mat_unif.spec_def().spec_id() == location_of(us, "view_mat"@)
                &&& rd.sun_intensity_unif.spec_def().spec_id() == location_of(us, "sun.intensity"@)
                &&& rd.sun_direction_unif.spec_def().spec_id() == location_of(us, "sun.direction"@)
                &&& rd.sun_ambient_unif.spec_def().spec_id() == location_of(us, "sun.ambient"@)
                &&& rd.sun_diffuse_unif.spec_def().spec_id() == location_of(us, "sun.diffuse"@)
                &&& rd.sun_specular_unif.spec_def().spec_id() == location_of(us, "sun.specular"@)
                &&& rd.lamp_position_unif.spec_def().spec_id() == location_of(us, "lamp.position"@)
                &&& rd.lamp_ambient_unif.spec_def().spec_id() == location_of(us, "lamp.ambient"@)
                &&& rd.lamp_diffuse_unif.spec_def().spec_id() == location_of(us, "lamp.diffuse"@)
                &&& rd.lamp_specular_unif.spec_def().spec_id() == location_of(us, "lamp.specular"@)
            },
    {
        let p = &program;
        let model_mat_unif = mat4(p, "model_mat")?;
        let view_mat_unif = mat4(p, "view_mat")?;
        let modelview_mat_unif = mat4(p, "modelview_mat")?;
        let proj_mat_unif = mat4(p, "proj_mat")?;
        let mvp_mat_unif = mat4(p, "mvp_mat")?;
        let normal_mat_unif = mat4(p, "normal_mat")?;
        let use_normalmap_unif = boolean(p, "use_normalmap")?;
        let sun_intensity_unif = float(p, "sun.intensity")?;
        let sun_direction_unif = vec3(p, "sun.direction")?;
        let sun_ambient_unif = vec3(p, "sun.ambient")?;
        let sun_diffuse_unif = vec3(p, "sun.diffuse")?;
        let sun_specular_unif = vec3(p, "sun.specular")?;
        let lamp_position_unif = vec3(p, "lamp.position")?;
        let lamp_ambient_unif = vec3(p, "lamp.ambient")?;
        let lamp_diffuse_unif = vec3(p, "lamp.diffuse")?;
        let lamp_specular_unif = vec3(p, "lamp.specular")?;
        Ok(
            Render3D {
                main_shader: program,
                model_mat_unif,
                view_mat_unif,
                modelview_mat_unif,
                proj_mat_unif,
                mvp_mat_unif,
                normal_mat_unif,
                use_normalmap_unif,
                sun_intensity_unif,
                sun_direction_unif,
                sun_ambient_unif,
                sun_diffuse_unif,
                sun_specular_unif,
                lamp_position_unif,
                lamp_ambient_unif,
                lamp_diffuse_unif,
                lamp_specular_unif,
            },
        )
    }
}

/// Why an update could not be applied.
#[derive(Clone, Copy, Debug, PartialEq, Eq, Structural)]
pub enum ResourceError {
    /// The id's index lies past the end of its type's store: it was issued
    /// before the store was filled anew with fewer entries.
    IndexOutOfRange,
}

/// One step of drawing a frame, in the order the steps must be taken.
#[derive(Clone, Copy, Debug, PartialEq, Eq, Structural)]
pub enum DrawCommand {
    /// Make the program current.
    UseProgram { program: u32 },
    /// Write the per-frame uniforms: sampler units, camera position, lights.
    PushGlobals,
    /// Turn normal mapping on or off for the group that follows.
    SetNormalMapping { location: u32, enabled: bool },
    /// Write the matrices of one instance (model, view times model,
    /// projection, projection times view times model, normal).
    PushInstanceMatrices { group: ResourceType, index: usize },
    /// Bind a texture on a unit.
    BindTexture { unit: u32, texture: u32 },
    /// Draw the triangles of a vertex array.
    DrawElements { vao: u32, index_buffer: u32, count: i32 },
}

/// The steps that draw basic mesh `m`, entry `i` of its store.
pub open spec fn basic_instance_cmds(m: basic_mesh::Mesh, i: int) -> Seq<DrawCommand> {
    seq![
        DrawCommand::PushInstanceMatrices { group: ResourceType::TexturedMesh, index: i as usize },
        DrawCommand::BindTexture { unit: DIFFUSE_TEXTURE_UNIT, texture: m.spec_textures().spec_diffuse() },
        DrawCommand::BindTexture { unit: SPECULAR_TEXTURE_UNIT, texture: m.spec_textures().spec_specular() },
        DrawCommand::DrawElements {
            vao: m.spec_vao(),
            index_buffer: m.spec_buffers().spec_index(),
            count: m.spec_element_count(),
        },
    ]
}

/// The steps that draw normal-mapped mesh `m`, entry `i` of its store.
pub open spec fn normal_mapped_instance_cmds(m: normal_mapped_mesh::Mesh, i: int) -> Seq<DrawCommand> {
    seq![
        DrawCommand::PushInstanceMatrices { group: ResourceType::NormalMappedMesh, index: i as usize },
        DrawCommand::BindTexture { unit: DIFFUSE_TEXTURE_UNIT, texture: m.spec_textures().spec_diffuse() },
        DrawCommand::BindTexture { unit: SPECULAR_TEXTURE_UNIT, texture: m.spec_textures().spec_specular() },
        DrawCommand::BindTexture { unit: NORMAL_TEXTURE_UNIT, texture: m.spec_textures().spec_normal() },
        DrawCommand::DrawElements {
            vao: m.spec_vao(),
            index_buffer: m.spec_buffers().spec_index(),
            count: m.spec_element_count(),
        },
    ]
}

/// The steps that draw every basic mesh of `ms`, in store order.
pub open spec fn basic_cmds<M>(ms: Seq<mesh_data::Basic<M>>) -> Seq<DrawCommand>
    decreases ms.len(),
{
    if ms.len() == 0 {
        seq![]
    } else {
        basic_cmds(ms.drop_last()) + basic_instance_cmds(ms.last().resource, ms.len() - 1)
    }
}

/// The steps that draw every normal-mapped mesh of `ms`, in store order.
pub open spec fn normal_mapped_cmds<M>(ms: Seq<mesh_data::NormalMapped<M>>) -> Seq<DrawCommand>
    decreases ms.len(),
{
    if ms.len() == 0 {
        seq![]
    } else {
        normal_mapped_cmds(ms.drop_last()) + normal_mapped_instance_cmds(
            ms.last().resource,
            ms.len() - 1,
        )
    }
}

proof fn lemma_basic_cmds_layout<M>(ms: Seq<mesh_data::Basic<M>>)
    ensures
        basic_cmds(ms).len() == 4 * ms.len(),
        forall|i: int, k: int|
            0 <= i < ms.len() && 0 <= k < 4 ==> #[trigger] basic_cmds(ms)[4 * i + k]
                == basic_instance_cmds(ms[i].resource, i)[k],
    decreases ms.len(),
{
    if ms.len() > 0 {
        let d = ms.drop_last();
        lemma_basic_cmds_layout(d);
        let n = ms.len() - 1;
        assert forall|i: int, k: int| 0 <= i < ms.len() && 0 <= k < 4 implies #[trigger] basic_cmds(
            ms,
        )[4 * i + k] == basic_instance_cmds(ms[i].resource, i)[k] by {
            if i < n {
                assert(d[i] == ms[i]);
                assert(basic_cmds(d)[4 * i + k] == basic_instance_cmds(d[i].resource, i)[k]);
            }
        }
    }
}

proof fn lemma_normal_mapped_cmds_layout<M>(ms: Seq<mesh_data::NormalMapped<M>>)
    ensures
        normal_mapped_cmds(ms).len() == 5 * ms.len(),
        forall|i: int, k: int|
            0 <= i < ms.len() && 0 <= k < 5 ==> #[trigger] normal_mapped_cmds(ms)[5 * i + k]
                == normal_mapped_instance_cmds(ms[i].resource, i)[k],
    decreases ms.len(),
{
    if ms.len() > 0 {
        let d = ms.drop_last();
        lemma_normal_mapped_cmds_layout(d);
        let n = ms.len() - 1;
        assert forall|i: int, k: int| 0 <= i < ms.len() && 0 <= k < 5 implies
            #[trigger] normal_mapped_cmds(ms)[5 * i + k] == normal_mapped_instance_cmds(
            ms[i].resource,
            i,
        )[k] by {
            if i < n {
                assert(d[i] == ms[i]);
                assert(normal_mapped_cmds(d)[5 * i + k] == normal_mapped_instance_cmds(
                    d[i].resource,
                    i,
                )[k]);
            }
        }
    }
}

/// The renderer's state: its program and handles, the camera, and one
/// backing store per mesh variant. `M` is the matrix type and `P` the point
/// type of the caller's math library.
pub struct Pipeline3D<M: Copy, P: Copy> {
    render: Render3D,
    projection_matrix: M,
    view_matrix: M,
    basic_tex_meshes: Vec<mesh_data::Basic<M>>,
    normal_mapped_tex_meshes: Vec<mesh_data::NormalMapped<M>>,
    view_pos: P,
}

impl<M: Copy, P: Copy> Pipeline3D<M, P> {
    #[verifier::type_invariant]
    spec fn inv(&self) -> bool {
        &&& self.basic_tex_meshes@.len() <= INDEX_LIMIT
        &&& self.normal_mapped_tex_meshes@.len() <= INDEX_LIMIT
    }

    pub closed spec fn spec_render(&self) -> &Render3D {
        &self.render
    }

    pub closed spec fn spec_projection(&self) -> M {
        self.projection_matrix
    }

    pub closed spec fn spec_view(&self) -> M {
        self.view_matrix
    }

    pub closed spec fn spec_view_pos(&self) -> P {
        self.view_pos
    }

    pub closed spec fn spec_basic(&self) -> Seq<mesh_data::Basic<M>> {
        self.basic_tex_meshes@
    }

    pub closed spec fn spec_normal_mapped(&self) -> Seq<mesh_data::NormalMapped<M>> {
        self.normal_mapped_tex_meshes@
    }

    /// How many entries the store of type `t` holds.
    pub open spec fn store_len(&self, t: ResourceType) -> nat {
        match t {
            ResourceType::TexturedMesh => self.spec_basic().len(),
            ResourceType::NormalMappedMesh => self.spec_normal_mapped().len(),
        }
    }

    /// The steps of one frame: make the program current, write the
    /// per-frame uniforms once, then draw the basic meshes with normal
    /// mapping off and the normal-mapped meshes with it on.
    pub open spec fn frame_cmds(&self) -> Seq<DrawCommand> {
        let loc = self.spec_render().use_normalmap_unif.spec_def().spec_id();
        seq![
            DrawCommand::UseProgram { program: self.spec_render().main_shader.spec_id() },
            DrawCommand::PushGlobals,
            DrawCommand::SetNormalMapping { location: loc, enabled: false },
        ] + basic_cmds(self.spec_basic()) + seq![
            DrawCommand::SetNormalMapping { location: loc, enabled: true },
        ] + normal_mapped_cmds(self.spec_normal_mapped())
    }

    /// A renderer on `program`, with empty stores, both matrices `identity`
    /// and the camera at `origin`. Fails as [`Render3D::bind`] does.
    pub fn from_program(program: ShaderProgram, identity: M, origin: P) -> (r: Result<Self, ShaderIssue>)
        ensures
            r is Ok <==> offers_render_uniforms(program.spec_uniforms()),
            r matches Ok(p) ==> {
                &&& p.spec_render().main_shader.spec_id() == program.spec_id()
                &&& p.spec_projection() == identity
                &&& p.spec_view() == identity
                &&& p.spec_view_pos() == origin
                &&& p.spec_basic().len() == 0
                &&& p.spec_normal_mapped().len() == 0
            },
    {
        let render = Render3D::bind(program)?;
        Ok(
            Pipeline3D {
                render,
                projection_matrix: identity,
                view_matrix: identity,
                basic_tex_meshes: Vec::new(),
                normal_mapped_tex_meshes: Vec::new(),
                view_pos: origin,
            },
        )
    }

    pub fn render(&self) -> (r: &Render3D)
        ensures
            r == self.spec_render(),
    {
        &self.render
    }

    /// Empties the basic store and fills it with `meshes`, in order, each
    /// with identity matrices, and returns the id of each entry. The
    /// normal-mapped store is left as it is. Ids of the basic store issued
    /// before this call now name the new entries, or none once past the
    /// new end: an update through such an id fails with
    /// `IndexOutOfRange` when its index is past the end, and otherwise
    /// reaches the new entry at that index. Meshes still in the store are
    /// dropped: take them first with
    /// [`Pipeline3D::release_basic_textured_meshes`] to free their GPU objects.
    pub fn prepare_basic_textured_meshes(&mut self, meshes: Vec<basic_mesh::Mesh>, identity: M) -> (r: Vec<ResourceID>)
        requires
            meshes@.len() <= INDEX_LIMIT,
        ensures
            final(self).spec_basic().len() == meshes@.len(),
            forall|i: int| 0 <= i < meshes@.len() ==> {
                let e = #[trigger] final(self).spec_basic()[i];
                &&& e.resource == meshes@[i]
                &&& e.model_matrix == identity
                &&& e.normal_matrix == identity
            },
            final(self).spec_normal_mapped() == old(self).spec_normal_mapped(),
            final(self).spec_render() == old(self).spec_render(),
            final(self).spec_projection() == old(self).spec_projection(),
            final(self).spec_view() == old(self).spec_view(),
            final(self).spec_view_pos() == old(self).spec_view_pos(),
            r@.len() == meshes@.len(),
            forall|i: int| 0 <= i < r@.len() ==> {
                &&& (#[trigger] r@[i]).spec_type() == ResourceType::TexturedMesh
                &&& r@[i].spec_index() == i
            },
    {
        proof {
            use_type_invariant(&*self);
        }
        let mut ids: Vec<ResourceID> = Vec::new();
        let mut store: Vec<mesh_data::Basic<M>> = Vec::new();
        let mut meshes = meshes;
        let ghost src = meshes@;
        let n = meshes.len();
        let mut i: usize = 0;
        while i < n
            invariant
                n == src.len(),
                n <= INDEX_LIMIT,
                i <= n,
                meshes@ == src.subrange(i as int, n as int),
                store@.len() == i,
                ids@.len() == i,
                forall|k: int| 0 <= k < i ==> {
                    let e = #[trigger] store@[k];
                    &&& e.resource == src[k]
                    &&& e.model_matrix == identity
                    &&& e.normal_matrix == identity
                },
                forall|k: int| 0 <= k < i ==> {
                    &&& (#[trigger] ids@[k]).spec_type() == ResourceType::TexturedMesh
                    &&& ids@[k].spec_index() == k
                },
            decreases n - i,
        {
            let m = meshes.remove(0);
            assert(meshes@ =~= src.subrange(i + 1, n as int));
            ids.push(ResourceID::new(ResourceType::TexturedMesh, i as u32));
            store.push(mesh_data::Basic { resource: m, model_matrix: identity, normal_matrix: identity });
            i = i + 1;
        }
        self.basic_tex_meshes = store;
        ids
    }

    /// Empties the normal-mapped store and fills it with `meshes`, as
    /// [`Pipeline3D::prepare_basic_textured_meshes`] does for the basic
    /// store; the basic store is left as it is. Take the meshes still in the
    /// store first with [`Pipeline3D::release_normal_mapped_textured_meshes`]
    /// to free their GPU objects.
    pub fn prepare_normal_mapped_textured_meshes(&mut self, meshes: Vec<normal_mapped_mesh::Mesh>, identity: M) -> (r: Vec<ResourceID>)
        requires
            meshes@.len() <= INDEX_LIMIT,
        ensures
            final(self).spec_normal_mapped().len() == meshes@.len(),
            forall|i: int| 0 <= i < meshes@.len() ==> {
                let e = #[trigger] final(self).spec_normal_mapped()[i];
                &&& e.resource == meshes@[i]
                &&& e.model_matrix == identity
                &&& e.normal_matrix == identity
            },
            final(self).spec_basic() == old(self).spec_basic(),
            final(self).spec_render() == old(self).spec_render(),
            final(self).spec_projection() == old(self).spec_projection(),
            final(self).spec_view() == old(self).spec_view(),
            final(self).spec_view_pos() == old(self).spec_view_pos(),
            r@.len() == meshes@.len(),
            forall|i: int| 0 <= i < r@.len() ==> {
                &&& (#[trigger] r@[i]).spec_type() == ResourceType::NormalMappedMesh
                &&& r@[i].spec_index() == i
            },
    {
        proof {
            use_type_invariant(&*self);
        }
        let mut ids: Vec<ResourceID> = Vec::new();
        let mut store: Vec<mesh_data::NormalMapped<M>> = Vec::new();
        let mut meshes = meshes;
        let ghost src = meshes@;
        let n = meshes.len();
        let mut i: usize = 0;
        while i < n
            invariant
                n == src.len(),
                n <= INDEX_LIMIT,
                i <= n,
                meshes@ == src.subrange(i as int, n as int),
                store@.len() == i,
                ids@.len() == i,
                forall|k: int| 0 <= k < i ==> {
                    let e = #[trigger] store@[k];
                    &&& e.resource == src[k]
                    &&& e.model_matrix == identity
                    &&& e.normal_matrix == identity
                },
                forall|k: int| 0 <= k < i ==> {
                    &&& (#[trigger] ids@[k]).spec_type() == ResourceType::NormalMappedMesh
                    &&& ids@[k].spec_index() == k
                },
            decreases n - i,
        {
            let m = meshes.remove(0);
            assert(meshes@ =~= src.subrange(i + 1, n as int));
            ids.push(ResourceID::new(ResourceType::NormalMappedMesh, i as u32));
            store.push(mesh_data::NormalMapped { resource: m, model_matrix: identity, normal_matrix: identity });
            i = i + 1;
        }
        self.normal_mapped_tex_meshes = store;
        ids
    }

    /// Sets the model matrix of the entry that `id` names. Fails with
    /// `IndexOutOfRange`, changing nothing, when the id's index is past the
    /// end of its type's store.
    pub fn update_model_matrix(&mut self, id: ResourceID, mat: M) -> (r: Result<(), ResourceError>)
        ensures
            r is Ok <==> id.spec_index() < old(self).store_len(id.spec_type()),
            r is Err ==> *final(self) == *old(self),
            final(self).spec_render() == old(self).spec_render(),
            final(self).spec_projection() == old(self).spec_projection(),
            final(self).spec_view() == old(self).spec_view(),
            final(self).spec_view_pos() == old(self).spec_view_pos(),
            r is Ok ==> match id.spec_type() {
                ResourceType::TexturedMesh => {
                    let (o, f, k) = (old(self).spec_basic(), final(self).spec_basic(), id.spec_index() as int);
                    &&& f.len() == o.len()
                    &&& f[k].model_matrix == mat
                    &&& f[k].normal_matrix == o[k].normal_matrix
                    &&& f[k].resource == o[k].resource
                    &&& forall|j: int| 0 <= j < f.len() && j != k ==> #[trigger] f[j] == o[j]
                    &&& final(self).spec_normal_mapped() == old(self).spec_normal_mapped()
                },
                ResourceType::NormalMappedMesh => {
                    let (o, f, k) = (old(self).spec_normal_mapped(), final(self).spec_normal_mapped(), id.spec_index() as int);
                    &&& f.len() == o.len()
                    &&& f[k].model_matrix == mat
                    &&& f[k].normal_matrix == o[k].normal_matrix
                    &&& f[k].resource == o[k].resource
                    &&& forall|j: int| 0 <= j < f.len() && j != k ==> #[trigger] f[j] == o[j]
                    &&& final(self).spec_basic() == old(self).spec_basic()
                },
            },
    {
        proof {
            use_type_invariant(&*self);
        }
        let k = id.as_index();
        match id.get_type() {
            ResourceType::TexturedMesh => {
                if k >= self.basic_tex_meshes.len() {
                    return Err(ResourceError::IndexOutOfRange);
                }
                self.basic_tex_meshes[k].model_matrix = mat;
            },
            ResourceType::NormalMappedMesh => {
                if k >= self.normal_mapped_tex_meshes.len() {
                    return Err(ResourceError::IndexOutOfRange);
                }
                self.normal_mapped_tex_meshes[k].model_matrix = mat;
            },
        }
        Ok(())
    }

    /// The model matrix of the entry that `id` names, or
    /// `IndexOutOfRange` when the id's index is past the end of its store.
    pub fn model_matrix(&self, id: ResourceID) -> (r: Result<&M, ResourceError>)
        ensures
            r is Ok <==> id.spec_index() < self.store_len(id.spec_type()),
            r matches Ok(m) ==> *m == match id.spec_type() {
                ResourceType::TexturedMesh => self.spec_basic()[id.spec_index() as int].model_matrix,
                ResourceType::NormalMappedMesh => self.spec_normal_mapped()[id.spec_index() as int].model_matrix,
            },
    {
        let k = id.as_index();
        match id.get_type() {
            ResourceType::TexturedMesh => {
                if k >= self.basic_tex_meshes.len() {
                    return Err(ResourceError::IndexOutOfRange);
                }
                Ok(&self.basic_tex_meshes[k].model_matrix)
            },
            ResourceType::NormalMappedMesh => {
                if k >= self.normal_mapped_tex_meshes.len() {
                    return Err(ResourceError::IndexOutOfRange);
                }
                Ok(&self.normal_mapped_tex_meshes[k].model_matrix)
            },
        }
    }

    /// Sets the normal matrix of the entry that `id` names. Fails with
    /// `IndexOutOfRange`, changing nothing, when the id's index is past the
    /// end of its type's store.
    pub fn update_normal_matrix(&mut self, id: ResourceID, mat: M) -> (r: Result<(), ResourceError>)
        ensures
            r is Ok <==> id.spec_index() < old(self).store_len(id.spec_type()),
            r is Err ==> *final(self) == *old(self),
            final(self).spec_render() == old(self).spec_render(),
            final(self).spec_projection() == old(self).spec_projection(),
            final(self).spec_view() == old(self).spec_view(),
            final(self).spec_view_pos() == old(self).spec_view_pos(),
            r is Ok ==> match id.spec_type() {
                ResourceType::TexturedMesh => {
                    let (o, f, k) = (old(self).spec_basic(), final(self).spec_basic(), id.spec_index() as int);
                    &&& f.len() == o.len()
                    &&& f[k].normal_matrix == mat
                    &&& f[k].model_matrix == o[k].model_matrix
                    &&& f[k].resource == o[k].resource
                    &&& forall|j: int| 0 <= j < f.len() && j != k ==> #[trigger] f[j] == o[j]
                    &&& final(self).spec_normal_mapped() == old(self).spec_normal_mapped()
                },
                ResourceType::NormalMappedMesh => {
                    let (o, f, k) = (old(self).spec_normal_mapped(), final(self).spec_normal_mapped(), id.spec_index() as int);
                    &&& f.len() == o.len()
                    &&& f[k].normal_matrix == mat
                    &&& f[k].model_matrix == o[k].model_matrix
                    &&& f[k].resource == o[k].resource
                    &&& forall|j: int| 0 <= j < f.len() && j != k ==> #[trigger] f[j] == o[j]
                    &&& final(self).spec_basic() == old(self).spec_basic()
                },
            },
    {
        proof {
            use_type_invariant(&*self);
        }
        let k = id.as_index();
        match id.get_type() {
            ResourceType::TexturedMesh => {
                if k >= self.basic_tex_meshes.len() {
                    return Err(ResourceError::IndexOutOfRange);
                }
                self.basic_tex_meshes[k].normal_matrix = mat;
            },
            ResourceType::NormalMappedMesh => {
                if k >= self.normal_mapped_tex_meshes.len() {
                    return Err(ResourceError::IndexOutOfRange);
                }
                self.normal_mapped_tex_meshes[k].normal_matrix = mat;
            },
        }
        Ok(())
    }

    /// The normal matrix of the entry that `id` names, or
    /// `IndexOutOfRange` when the id's index is past the end of its store.
    pub fn normal_matrix(&self, id: ResourceID) -> (r: Result<&M, ResourceError>)
        ensures
            r is Ok <==> id.spec_index() < self.store_len(id.spec_type()),
            r matches Ok(m) ==> *m == match id.spec_type() {
                ResourceType::TexturedMesh => self.spec_basic()[id.spec_index() as int].normal_matrix,
                ResourceType::NormalMappedMesh => self.spec_normal_mapped()[id.spec_index() as int].normal_matrix,
            },
    {
        let k = id.as_index();
        match id.get_type() {
            ResourceType::TexturedMesh => {
                if k >= self.basic_tex_meshes.len() {
                    return Err(ResourceError::IndexOutOfRange);
                }
                Ok(&self.basic_tex_meshes[k].normal_matrix)
            },
            ResourceType::NormalMappedMesh => {
                if k >= self.normal_mapped_tex_meshes.len() {
                    return Err(ResourceError::IndexOutOfRange);
                }
                Ok(&self.normal_mapped_tex_meshes[k].normal_matrix)
            },
        }
    }

    /// Empties the basic store and hands back its meshes, in
    /// store order, so that their GPU objects can be released. Ids of this
    /// store issued before the call are rejected by every update until the
    /// store is filled again.
    pub fn release_basic_textured_meshes(&mut self) -> (r: Vec<basic_mesh::Mesh>)
        ensures
            r@.len() == old(self).spec_basic().len(),
            forall|i: int| 0 <= i < r@.len() ==> #[trigger] r@[i] == old(self).spec_basic()[i].resource,
            final(self).spec_basic().len() == 0,
            final(self).spec_normal_mapped() == old(self).spec_normal_mapped(),
            final(self).spec_render() == old(self).spec_render(),
            final(self).spec_projection() == old(self).spec_projection(),
            final(self).spec_view() == old(self).spec_view(),
            final(self).spec_view_pos() == old(self).spec_view_pos(),
    {
        proof {
            use_type_invariant(&*self);
        }
        let mut store: Vec<mesh_data::Basic<M>> = Vec::new();
        std::mem::swap(&mut store, &mut self.basic_tex_meshes);
        let ghost src = store@;
        let n = store.len();
        let mut out: Vec<basic_mesh::Mesh> = Vec::new();
        let mut i: usize = 0;
        while i < n
            invariant
                n == src.len(),
                i <= n,
                store@ == src.subrange(i as int, n as int),
                out@.len() == i,
                forall|k: int| 0 <= k < i ==> #[trigger] out@[k] == src[k].resource,
            decreases n - i,
        {
            let e = store.remove(0);
            assert(store@ =~= src.subrange(i + 1, n as int));
            out.push(e.resource);
            i = i + 1;
        }
        out
    }

    /// Empties the normal-mapped store and hands back its meshes, in
    /// store order, so that their GPU objects can be released. Ids of this
    /// store issued before the call are rejected by every update until the
    /// store is filled again.
    pub fn release_normal_mapped_textured_meshes(&mut self) -> (r: Vec<normal_mapped_mesh::Mesh>)
        ensures
            r@.len() == old(self).spec_normal_mapped().len(),
            forall|i: int| 0 <= i < r@.len() ==> #[trigger] r@[i] == old(self).spec_normal_mapped()[i].resource,
            final(self).spec_normal_mapped().len() == 0,
            final(self).spec_basic() == old(self).spec_basic(),
            final(self).spec_render() == old(self).spec_render(),
            final(self).spec_projection() == old(self).spec_projection(),
            final(self).spec_view() == old(self).spec_view(),
            final(self).spec_view_pos() == old(self).spec_view_pos(),
    {
        proof {
            use_type_invariant(&*self);
        }
        let mut store: Vec<mesh_data::NormalMapped<M>> = Vec::new();
        std::mem::swap(&mut store, &mut self.normal_mapped_tex_meshes);
        let ghost src = store@;
        let n = store.len();
        let mut out: Vec<normal_mapped_mesh::Mesh> = Vec::new();
        let mut i: usize = 0;
        while i < n
            invariant
                n == src.len(),
                i <= n,
                store@ == src.subrange(i as int, n as int),
                out@.len() == i,
                forall|k: int| 0 <= k < i ==> #[trigger] out@[k] == src[k].resource,
            decreases n - i,
        {
            let e = store.remove(0);
            assert(store@ =~= src.subrange(i + 1, n as int));
            out.push(e.resource);
            i = i + 1;
        }
        out
    }

    pub fn update_view_matrix(&mut self, mat: M)
        ensures
            final(self).spec_view() == mat,
            final(self).spec_projection() == old(self).spec_projection(),
            final(self).spec_view_pos() == old(self).spec_view_pos(),
            final(self).spec_render() == old(self).spec_render(),
            final(self).spec_basic() == old(self).spec_basic(),
            final(self).spec_normal_mapped() == old(self).spec_normal_mapped(),
    {
        proof {
            use_type_invariant(&*self);
        }
        self.view_matrix = mat;
    }

    pub fn update_projection_matrix(&mut self, mat: M)
        ensures
            final(self).spec_projection() == mat,
            final(self).spec_view() == old(self).spec_view(),
            final(self).spec_view_pos() == old(self).spec_view_pos(),
            final(self).spec_render() == old(self).spec_render(),
            final(self).spec_basic() == old(self).spec_basic(),
            final(self).spec_normal_mapped() == old(self).spec_normal_mapped(),
    {
        proof {
            use_type_invariant(&*self);
        }
        self.projection_matrix = mat;
    }

    pub fn update_view_pos(&mut self, pos: P)
        ensures
            final(self).spec_view_pos() == pos,
            final(self).spec_view() == old(self).spec_view(),
            final(self).spec_projection() == old(self).spec_projection(),
            final(self).spec_render() == old(self).spec_render(),
            final(self).spec_basic() == old(self).spec_basic(),
            final(self).spec_normal_mapped() == old(self).spec_normal_mapped(),
    {
        proof {
            use_type_invariant(&*self);
        }
        self.view_pos = pos;
    }

    pub fn view_matrix(&self) -> (r: &M)
        ensures
            *r == self.spec_view(),
    {
        &self.view_matrix
    }

    pub fn projection_matrix(&self) -> (r: &M)
        ensures
            *r == self.spec_projection(),
    {
        &self.projection_matrix
    }

    pub fn view_pos(&self) -> (r: &P)
        ensures
            *r == self.spec_view_pos(),
    {
        &self.view_pos
    }

    /// The steps that draw one frame, in order; see [`Pipeline3D::frame_cmds`].
    pub fn draw_textured_meshes(&self) -> (r: Vec<DrawCommand>)
        ensures
            r@ == self.frame_cmds(),
    {
        let loc = self.render.use_normalmap_unif.definition().id();
        let mut cmds: Vec<DrawCommand> = Vec::new();
        cmds.push(DrawCommand::UseProgram { program: self.render.main_shader.id() });
        cmds.push(DrawCommand::PushGlobals);
        cmds.push(DrawCommand::SetNormalMapping { location: loc, enabled: false });
        let ghost head = cmds@;
        let ghost bs = self.basic_tex_meshes@;
        let mut i: usize = 0;
        while i < self.basic_tex_meshes.len()
            invariant
                bs == self.basic_tex_meshes@,
                i <= bs.len(),
                cmds@ == head + basic_cmds(bs.subrange(0, i as int)),
            decreases bs.len() - i,
        {
            let m = &self.basic_tex_meshes[i].resource;
            let t = m.textures();
            proof {
                assert(bs.subrange(0, i + 1).drop_last() =~= bs.subrange(0, i as int));
            }
            cmds.push(DrawCommand::PushInstanceMatrices { group: ResourceType::TexturedMesh, index: i });
            cmds.push(DrawCommand::BindTexture { unit: DIFFUSE_TEXTURE_UNIT, texture: t.diffuse() });
            cmds.push(DrawCommand::BindTexture { unit: SPECULAR_TEXTURE_UNIT, texture: t.specular() });
            cmds.push(DrawCommand::DrawElements { vao: m.vao(), index_buffer: m.buffers().index(), count: m.element_count() });
            assert(cmds@ =~= head + basic_cmds(bs.subrange(0, i + 1)));
            i = i + 1;
        }
        assert(bs.subrange(0, bs.len() as int) =~= bs);
        cmds.push(DrawCommand::SetNormalMapping { location: loc, enabled: true });
        let ghost head2 = cmds@;
        let ghost ns = self.normal_mapped_tex_meshes@;
        let mut j: usize = 0;
        while j < self.normal_mapped_tex_meshes.len()
            invariant
                ns == self.normal_mapped_tex_meshes@,
                j <= ns.len(),
                cmds@ == head2 + normal_mapped_cmds(ns.subrange(0, j as int)),
            decreases ns.len() - j,
        {
            let m = &self.normal_mapped_tex_meshes[j].resource;
            let t = m.textures();
            proof {
                assert(ns.subrange(0, j + 1).drop_last() =~= ns.subrange(0, j as int));
            }
            cmds.push(DrawCommand::PushInstanceMatrices { group: ResourceType::NormalMappedMesh, index: j });
            cmds.push(DrawCommand::BindTexture { unit: DIFFUSE_TEXTURE_UNIT, texture: t.diffuse() });
            cmds.push(DrawCommand::BindTexture { unit: SPECULAR_TEXTURE_UNIT, texture: t.specular() });
            cmds.push(DrawCommand::BindTexture { unit: NORMAL_TEXTURE_UNIT, texture: t.normal() });
            cmds.push(DrawCommand::DrawElements { vao: m.vao(), index_buffer: m.buffers().index(), count: m.element_count() });
            assert(cmds@ =~= head2 + normal_mapped_cmds(ns.subrange(0, j + 1)));
            j = j + 1;
        }
        assert(ns.subrange(0, ns.len() as int) =~= ns);
        assert(cmds@ =~= self.frame_cmds());
        cmds
    }
}

/// The order of a frame: the program is made current first and only
/// there, so it precedes every uniform write and every draw; the per-frame
/// uniforms are written once, next; each group is drawn after its
/// normal-map switch; and each instance's draw comes right after its
/// matrices are written and its textures bound.
pub proof fn lemma_frame_order<M: Copy, P: Copy>(p: Pipeline3D<M, P>)
    ensures
        ({
            let f = p.frame_cmds();
            let nb = p.spec_basic().len() as int;
            let nn = p.spec_normal_mapped().len() as int;
            &&& f.len() == 4 + 4 * nb + 5 * nn
            &&& f[0] is UseProgram
            &&& forall|j: int| 1 <= j < f.len() ==> !(#[trigger] f[j] is UseProgram)
            &&& f[1] is PushGlobals
            &&& f[2] == (DrawCommand::SetNormalMapping {
                location: p.spec_render().use_normalmap_unif.spec_def().spec_id(),
                enabled: false,
            })
            &&& f[3 + 4 * nb] == (DrawCommand::SetNormalMapping {
                location: p.spec_render().use_normalmap_unif.spec_def().spec_id(),
                enabled: true,
            })
            &&& forall|i: int, k: int|
                0 <= i < nb && 0 <= k < 4 ==> #[trigger] f[3 + 4 * i + k] == basic_instance_cmds(
                    p.spec_basic()[i].resource,
                    i,
                )[k]
            &&& forall|i: int, k: int|
                0 <= i < nn && 0 <= k < 5 ==> #[trigger] f[4 + 4 * nb + 5 * i + k]
                    == normal_mapped_instance_cmds(p.spec_normal_mapped()[i].resource, i)[k]
        }),
{
    let bs = p.spec_basic();
    let ns = p.spec_normal_mapped();
    lemma_basic_cmds_layout(bs);
    lemma_normal_mapped_cmds_layout(ns);
    let f = p.frame_cmds();
    let nb = bs.len() as int;
    let nn = ns.len() as int;
    let loc = p.spec_render().use_normalmap_unif.spec_def().spec_id();
    let head = seq![
        DrawCommand::UseProgram { program: p.spec_render().main_shader.spec_id() },
        DrawCommand::PushGlobals,
        DrawCommand::SetNormalMapping { location: loc, enabled: false },
    ];
    let mid = seq![DrawCommand::SetNormalMapping { location: loc, enabled: true }];
    assert(f == head + basic_cmds(bs) + mid + normal_mapped_cmds(ns));
    assert forall|i: int, k: int| 0 <= i < nb && 0 <= k < 4 implies #[trigger] f[3 + 4 * i + k]
        == basic_instance_cmds(bs[i].resource, i)[k] by {
        assert(basic_cmds(bs)[4 * i + k] == basic_instance_cmds(bs[i].resource, i)[k]);
    }
    assert forall|i: int, k: int| 0 <= i < nn && 0 <= k < 5 implies #[trigger] f[4 + 4 * nb + 5 * i
        + k] == normal_mapped_instance_cmds(ns[i].resource, i)[k] by {
        assert(normal_mapped_cmds(ns)[5 * i + k] == normal_mapped_instance_cmds(ns[i].resource, i)[k]);
    }
    assert forall|j: int| 1 <= j < f.len() implies !(#[trigger] f[j] is UseProgram) by {
        if 3 <= j < 3 + 4 * nb {
            let i = (j - 3) / 4;
            let k = (j - 3) % 4;
            assert(j == 3 + 4 * i + k);
            assert(f[3 + 4 * i + k] == basic_instance_cmds(bs[i].resource, i)[k]);
        } else if 4 + 4 * nb <= j {
            let i = (j - 4 - 4 * nb) / 5;
            let k = (j - 4 - 4 * nb) % 5;
            assert(j == 4 + 4 * nb + 5 * i + k);
            assert(f[4 + 4 * nb + 5 * i + k] == normal_mapped_instance_cmds(ns[i].resource, i)[k]);
        }
    }
}

} // verus!
