use darkest::shader::{ReportedUniform, Shader, ShaderIssue, ShaderProgram};
use darkest::uniform::{
    BoolUniform, Mat4Uniform, Uniform, UniformDefinition, UniformKind, Vec3Uniform, GL_BOOL,
    GL_DOUBLE, GL_FLOAT, GL_FLOAT_MAT2, GL_FLOAT_MAT3, GL_FLOAT_MAT4, GL_FLOAT_VEC2,
    GL_FLOAT_VEC3, GL_FLOAT_VEC4, GL_INT, GL_SAMPLER_2D, GL_UNSIGNED_INT,
};

fn rep(gl_type: u32, id: u32, name: &str) -> ReportedUniform {
    ReportedUniform { gl_type, def: UniformDefinition::new(id, name.to_string(), 1) }
}

fn program(reported: &[ReportedUniform]) -> ShaderProgram {
    ShaderProgram::from_link_status(3, true, String::new(), reported).unwrap()
}

#[test]
fn type_codes_match_the_api() {
    assert_eq!(GL_INT, gl::INT);
    assert_eq!(GL_UNSIGNED_INT, gl::UNSIGNED_INT);
    assert_eq!(GL_BOOL, gl::BOOL);
    assert_eq!(GL_FLOAT, gl::FLOAT);
    assert_eq!(GL_DOUBLE, gl::DOUBLE);
    assert_eq!(GL_FLOAT_VEC2, gl::FLOAT_VEC2);
    assert_eq!(GL_FLOAT_VEC3, gl::FLOAT_VEC3);
    assert_eq!(GL_FLOAT_VEC4, gl::FLOAT_VEC4);
    assert_eq!(GL_FLOAT_MAT2, gl::FLOAT_MAT2);
    assert_eq!(GL_FLOAT_MAT3, gl::FLOAT_MAT3);
    assert_eq!(GL_FLOAT_MAT4, gl::FLOAT_MAT4);
    assert_eq!(GL_SAMPLER_2D, gl::SAMPLER_2D);
}

#[test]
fn kinds_round_trip_through_type_codes() {
    let all = [
        UniformKind::Int,
        UniformKind::UInt,
        UniformKind::Bool,
        UniformKind::Float,
        UniformKind::Double,
        UniformKind::Vec2,
        UniformKind::Vec3,
        UniformKind::Vec4,
        UniformKind::Mat2,
        UniformKind::Mat3,
        UniformKind::Mat4,
        UniformKind::Sampler2D,
    ];
    for k in all {
        assert_eq!(UniformKind::from_gl_type(k.gl_type()), Some(k));
    }
    assert_eq!(UniformKind::from_gl_type(gl::FLOAT_MAT4), Some(UniformKind::Mat4));
    assert_eq!(UniformKind::from_gl_type(gl::IMAGE_2D), None);
    assert_eq!(UniformKind::from_gl_type(0), None);
}

#[test]
fn compile_status_decides() {
    let s = Shader::from_compile_status(5, gl::VERTEX_SHADER, true, String::new()).unwrap();
    assert_eq!((s.id(), s.stage()), (5, gl::VERTEX_SHADER));
    match Shader::from_compile_status(6, gl::FRAGMENT_SHADER, false, "0:1: error".to_string()) {
        Err(ShaderIssue::CompileError(m)) => assert_eq!(m, "0:1: error"),
        _ => panic!("expected a compile error"),
    }
}

#[test]
fn failed_link_carries_log() {
    let r = ShaderProgram::from_link_status(1, false, "link failed".to_string(), &[]);
    match r {
        Err(ShaderIssue::LinkError(m)) => assert_eq!(m, "link failed"),
        _ => panic!("expected a link error"),
    }
}

#[test]
fn reflection_tags_each_uniform() {
    let p = program(&[rep(GL_FLOAT_MAT4, 4, "model_mat"), rep(GL_FLOAT_VEC3, 9, "sun.direction")]);
    assert_eq!(p.id(), 3);
    let us = p.uniforms();
    assert_eq!(us.len(), 2);
    assert_eq!(us[0].kind(), UniformKind::Mat4);
    assert_eq!(us[0].definition().id(), 4);
    assert_eq!(us[0].definition().name(), "model_mat");
    assert_eq!(us[0].definition().data_size(), 1);
    assert_eq!(us[1].kind(), UniformKind::Vec3);
    assert!(matches!(us[1], Uniform::Vec3(_)));
}

#[test]
fn unsupported_type_code_fails_link() {
    let r = ShaderProgram::from_link_status(
        1,
        true,
        String::new(),
        &[rep(GL_FLOAT, 0, "a"), rep(gl::IMAGE_2D, 1, "img")],
    );
    assert!(matches!(r, Err(ShaderIssue::UnsupportedUniformType(c)) if c == gl::IMAGE_2D));
}

#[test]
fn lookup_by_name_finds_first() {
    let p = program(&[rep(GL_FLOAT, 0, "a"), rep(GL_INT, 1, "b"), rep(GL_BOOL, 2, "b")]);
    let u = p.uniform_by_name("b").unwrap();
    assert_eq!(u.definition().id(), 1);
    assert_eq!(u.kind(), UniformKind::Int);
    assert!(p.uniform_by_name("c").is_none());
}

#[test]
fn mistyped_request_fails() {
    let p = program(&[rep(GL_FLOAT_VEC3, 7, "lamp.position"), rep(GL_FLOAT_MAT4, 8, "mvp_mat")]);
    match p.uniform_of_kind("lamp.position", UniformKind::Mat4) {
        Err(ShaderIssue::UniformTypeMismatch { name, expected, found }) => {
            assert_eq!(name, "lamp.position");
            assert_eq!(expected, UniformKind::Mat4);
            assert_eq!(found, UniformKind::Vec3);
        }
        _ => panic!("expected a type mismatch"),
    }
    assert!(matches!(p.uniform_of_kind("nothing", UniformKind::Mat4), Err(ShaderIssue::MissingUniform(n)) if n == "nothing"));
    let u = p.uniform_of_kind("mvp_mat", UniformKind::Mat4).unwrap();
    assert_eq!(u.definition().id(), 8);
}

#[test]
fn typed_handles_check_the_kind() {
    let p = program(&[rep(GL_FLOAT_VEC3, 7, "v"), rep(GL_BOOL, 2, "flag")]);
    let v = p.uniform_by_name("v").unwrap();
    assert!(Mat4Uniform::from_uniform(v).is_none());
    let h = Vec3Uniform::from_uniform(v).unwrap();
    assert_eq!(h.definition().id(), 7);
    assert_eq!(h.definition().name(), "v");
    let f = p.uniform_by_name("flag").unwrap();
    assert!(BoolUniform::from_uniform(f).is_some());
    assert!(Vec3Uniform::from_uniform(f).is_none());
}

#[test]
fn from_type_rejects_unknown_codes() {
    let def = UniformDefinition::new(1, "x".to_string(), 4);
    assert!(Uniform::from_type(0x1234, def).is_none());
    let def = UniformDefinition::new(1, "x".to_string(), 4);
    let u = Uniform::from_type(GL_SAMPLER_2D, def).unwrap();
    assert_eq!(u.kind(), UniformKind::Sampler2D);
    assert_eq!(u.definition().data_size(), 4);
}

#[test]
fn definitions_compare_and_copy() {
    let d = UniformDefinition::new(12, "sun.ambient".to_string(), 3);
    assert!(d.has_name(&"sun.ambient".to_string()));
    assert!(!d.has_name(&"sun.diffuse".to_string()));
    let e = d.duplicate();
    assert_eq!((e.id(), e.name(), e.data_size()), (12, "sun.ambient", 3));
}
