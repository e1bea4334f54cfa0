use darkest::gpu::{basic_mesh, normal_mapped_mesh, textures};
use darkest::pipeline::{DrawCommand, Pipeline3D, Render3D, ResourceError};
use darkest::resource::{ResourceID, ResourceType};
use darkest::shader::{ReportedUniform, ShaderIssue, ShaderProgram};
use darkest::uniform::{UniformDefinition, UniformKind, GL_BOOL, GL_FLOAT, GL_FLOAT_MAT4, GL_FLOAT_VEC3};

type Mat4 = cgmath::Matrix4<f32>;
type Point3 = cgmath::Point3<f32>;

const NAMES: [(&str, u32); 16] = [
    ("model_mat", GL_FLOAT_MAT4),
    ("view_mat", GL_FLOAT_MAT4),
    ("modelview_mat", GL_FLOAT_MAT4),
    ("proj_mat", GL_FLOAT_MAT4),
    ("mvp_mat", GL_FLOAT_MAT4),
    ("normal_mat", GL_FLOAT_MAT4),
    ("use_normalmap", GL_BOOL),
    ("sun.intensity", GL_FLOAT),
    ("sun.direction", GL_FLOAT_VEC3),
    ("sun.ambient", GL_FLOAT_VEC3),
    ("sun.diffuse", GL_FLOAT_VEC3),
    ("sun.specular", GL_FLOAT_VEC3),
    ("lamp.position", GL_FLOAT_VEC3),
    ("lamp.ambient", GL_FLOAT_VEC3),
    ("lamp.diffuse", GL_FLOAT_VEC3),
    ("lamp.specular", GL_FLOAT_VEC3),
];

fn reported(skip: Option<&str>, retype: Option<(&str, u32)>) -> Vec<ReportedUniform> {
    NAMES
        .iter()
        .enumerate()
        .filter(|(_, (n, _))| Some(*n) != skip)
        .map(|(i, (n, t))| {
            let t = match retype {
                Some((r, t2)) if r == *n => t2,
                _ => *t,
            };
            ReportedUniform { gl_type: t, def: UniformDefinition::new(100 + i as u32, n.to_string(), 1) }
        })
        .collect()
}

fn linked(skip: Option<&str>, retype: Option<(&str, u32)>) -> ShaderProgram {
    ShaderProgram::from_link_status(42, true, String::new(), &reported(skip, retype)).unwrap()
}

fn pipeline() -> Pipeline3D<Mat4, Point3> {
    let id = <Mat4 as cgmath::SquareMatrix>::identity();
    Pipeline3D::from_program(linked(None, None), id, Point3::new(0.0, 0.0, 0.0)).unwrap()
}

fn basic(n: u32) -> basic_mesh::Mesh {
    let b = basic_mesh::Buffers::from_handles(n * 10 + 1, n * 10 + 2, n * 10 + 3, n * 10 + 4).unwrap();
    let t = textures::Basic::from_handles(n * 10 + 5, n * 10 + 6).unwrap();
    basic_mesh::Mesh::from_upload(n * 10 + 7, b, t, 6 * n as usize).unwrap()
}

fn normal_mapped(n: u32) -> normal_mapped_mesh::Mesh {
    let b = normal_mapped_mesh::Buffers::from_handles(n + 1, n + 2, n + 3, n + 4, n + 5, n + 6).unwrap();
    let t = textures::NormalMapped::from_handles(n + 7, n + 8, n + 9).unwrap();
    normal_mapped_mesh::Mesh::from_upload(n + 10, b, t, 36).unwrap()
}

#[test]
fn binding_finds_every_uniform() {
    let r = Render3D::bind(linked(None, None)).unwrap();
    assert_eq!(r.model_mat_unif.definition().id(), 100);
    assert_eq!(r.use_normalmap_unif.definition().id(), 106);
    assert_eq!(r.lamp_specular_unif.definition().id(), 115);
    assert_eq!(r.main_shader.id(), 42);
}

#[test]
fn binding_fails_on_missing_uniform() {
    let r = Render3D::bind(linked(Some("sun.ambient"), None));
    assert!(matches!(r, Err(ShaderIssue::MissingUniform(n)) if n == "sun.ambient"));
}

#[test]
fn binding_fails_on_mistyped_uniform() {
    let r = Render3D::bind(linked(None, Some(("mvp_mat", GL_FLOAT_VEC3))));
    match r {
        Err(ShaderIssue::UniformTypeMismatch { name, expected, found }) => {
            assert_eq!(name, "mvp_mat");
            assert_eq!(expected, UniformKind::Mat4);
            assert_eq!(found, UniformKind::Vec3);
        }
        _ => panic!("expected a type mismatch"),
    }
}

#[test]
fn prepare_issues_tagged_ids() {
    let mut p = pipeline();
    let ids = p.prepare_basic_textured_meshes(vec![basic(1), basic(2)], Mat4::from_scale(1.0));
    assert_eq!(ids.len(), 2);
    for (i, id) in ids.iter().enumerate() {
        assert_eq!(id.get_type(), ResourceType::TexturedMesh);
        assert_eq!(id.as_index(), i);
    }
    let nids = p.prepare_normal_mapped_textured_meshes(vec![normal_mapped(50)], Mat4::from_scale(1.0));
    assert_eq!(nids[0].get_type(), ResourceType::NormalMappedMesh);
    assert_eq!(nids[0].as_index(), 0);
    // Filling one store leaves the other alone.
    assert!(p.model_matrix(ids[1]).is_ok());
}

#[test]
fn updates_reach_the_named_entry() {
    let mut p = pipeline();
    let ids = p.prepare_basic_textured_meshes(vec![basic(1), basic(2)], Mat4::from_scale(1.0));
    let m = Mat4::from_scale(2.0);
    let n = Mat4::from_scale(3.0);
    p.update_model_matrix(ids[1], m).unwrap();
    p.update_normal_matrix(ids[1], n).unwrap();
    assert_eq!(*p.model_matrix(ids[1]).unwrap(), m);
    assert_eq!(*p.normal_matrix(ids[1]).unwrap(), n);
    assert_eq!(*p.model_matrix(ids[0]).unwrap(), Mat4::from_scale(1.0));
    let other = ResourceID::new(ResourceType::NormalMappedMesh, 0);
    assert_eq!(p.update_model_matrix(other, m), Err(ResourceError::IndexOutOfRange));
}

#[test]
fn refilling_a_store_ends_old_ids() {
    let mut p = pipeline();
    let first = p.prepare_basic_textured_meshes(vec![basic(1), basic(2), basic(3)], Mat4::from_scale(1.0));
    p.update_model_matrix(first[2], Mat4::from_scale(5.0)).unwrap();
    let second = p.prepare_basic_textured_meshes(vec![basic(4)], Mat4::from_scale(1.0));
    assert_eq!(second.len(), 1);
    // An old id past the new end is rejected ...
    assert_eq!(p.update_model_matrix(first[2], Mat4::from_scale(6.0)), Err(ResourceError::IndexOutOfRange));
    assert_eq!(p.model_matrix(first[1]), Err(ResourceError::IndexOutOfRange));
    // ... and one within it names the new entry at that index.
    assert_eq!(first[0].as_index(), second[0].as_index());
    p.update_model_matrix(first[0], Mat4::from_scale(7.0)).unwrap();
    assert_eq!(*p.model_matrix(second[0]).unwrap(), Mat4::from_scale(7.0));
}

#[test]
fn camera_updates() {
    let mut p = pipeline();
    let v = Mat4::from_scale(4.0);
    p.update_view_matrix(v);
    p.update_projection_matrix(Mat4::from_scale(8.0));
    p.update_view_pos(Point3::new(1.0, 2.0, 3.0));
    assert_eq!(*p.view_matrix(), v);
    assert_eq!(*p.projection_matrix(), Mat4::from_scale(8.0));
    assert_eq!(*p.view_pos(), Point3::new(1.0, 2.0, 3.0));
}

#[test]
fn frame_draws_basic_then_normal_mapped() {
    let mut p = pipeline();
    p.prepare_basic_textured_meshes(vec![basic(1)], Mat4::from_scale(1.0));
    p.prepare_normal_mapped_textured_meshes(vec![normal_mapped(50), normal_mapped(70)], Mat4::from_scale(1.0));
    let cmds = p.draw_textured_meshes();
    let loc = 106;
    let expected = vec![
        DrawCommand::UseProgram { program: 42 },
        DrawCommand::PushGlobals,
        DrawCommand::SetNormalMapping { location: loc, enabled: false },
        DrawCommand::PushInstanceMatrices { group: ResourceType::TexturedMesh, index: 0 },
        DrawCommand::BindTexture { unit: 0, texture: 15 },
        DrawCommand::BindTexture { unit: 1, texture: 16 },
        DrawCommand::DrawElements { vao: 17, index_buffer: 11, count: 6 },
        DrawCommand::SetNormalMapping { location: loc, enabled: true },
        DrawCommand::PushInstanceMatrices { group: ResourceType::NormalMappedMesh, index: 0 },
        DrawCommand::BindTexture { unit: 0, texture: 57 },
        DrawCommand::BindTexture { unit: 1, texture: 58 },
        DrawCommand::BindTexture { unit: 2, texture: 59 },
        DrawCommand::DrawElements { vao: 60, index_buffer: 51, count: 36 },
        DrawCommand::PushInstanceMatrices { group: ResourceType::NormalMappedMesh, index: 1 },
        DrawCommand::BindTexture { unit: 0, texture: 77 },
        DrawCommand::BindTexture { unit: 1, texture: 78 },
        DrawCommand::BindTexture { unit: 2, texture: 79 },
        DrawCommand::DrawElements { vao: 80, index_buffer: 71, count: 36 },
    ];
    assert_eq!(cmds, expected);
}

#[test]
fn empty_frame_still_sets_up() {
    let p = pipeline();
    let cmds = p.draw_textured_meshes();
    assert_eq!(cmds.len(), 4);
    assert_eq!(cmds[0], DrawCommand::UseProgram { program: 42 });
    assert_eq!(cmds[3], DrawCommand::SetNormalMapping { location: 106, enabled: true });
}

#[test]
fn release_hands_back_meshes_and_ends_ids() {
    let mut p = pipeline();
    let ids = p.prepare_basic_textured_meshes(vec![basic(1), basic(2)], Mat4::from_scale(1.0));
    let nids = p.prepare_normal_mapped_textured_meshes(vec![normal_mapped(50)], Mat4::from_scale(1.0));
    let old = p.release_basic_textured_meshes();
    assert_eq!(old.iter().map(|m| m.vao()).collect::<Vec<_>>(), vec![17, 27]);
    assert_eq!(p.update_model_matrix(ids[0], Mat4::from_scale(2.0)), Err(ResourceError::IndexOutOfRange));
    assert!(p.model_matrix(nids[0]).is_ok());
    let oldn = p.release_normal_mapped_textured_meshes();
    assert_eq!(oldn.len(), 1);
    assert_eq!(oldn[0].vao(), 60);
    assert!(p.release_normal_mapped_textured_meshes().is_empty());
    assert_eq!(p.draw_textured_meshes().len(), 4);
}
