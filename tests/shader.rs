use luminance::gl;
use luminance::shader::{
    shader_kind, ActiveUniform, CompileReport, Sampler2D, SamplerCube, Stage, StageError,
    StageType, Uniform, UniformBuilder, UniformData, UniformType, UniformUpload, UniformWarning,
    UNBOUND_LOCATION,
};

fn builder() -> UniformBuilder {
    UniformBuilder::new(
        3,
        vec![
            ActiveUniform { name: "u_time".to_string(), location: 0, ty: UniformType::Int },
            ActiveUniform { name: "u_flag".to_string(), location: 1, ty: UniformType::Bool },
            ActiveUniform { name: "u_size".to_string(), location: 2, ty: UniformType::UIVec2 },
        ],
    )
}

#[test]
fn invalid_vertex_source_gives_the_driver_log() {
    let report = CompileReport {
        shader: 4,
        compiled: false,
        log: "ERROR: 0:1: 'vod' : syntax error".to_string(),
    };
    let r = Stage::new(StageType::VertexShader, report);
    assert_eq!(
        r.unwrap_err(),
        StageError::CompilationFailed(
            StageType::VertexShader,
            "ERROR: 0:1: 'vod' : syntax error".to_string()
        )
    );
}

#[test]
fn compiled_stage_owns_its_shader_object() {
    let report = CompileReport { shader: 9, compiled: true, log: String::new() };
    let stage = Stage::new(StageType::FragmentShader, report).unwrap();
    assert_eq!(stage.handle(), 9);
    assert_eq!(stage.stage_type(), StageType::FragmentShader);
    assert_eq!(stage.destroy(), 9);
}

#[test]
fn stages_webgl2_lacks_are_unsupported() {
    for ty in [
        StageType::GeometryShader,
        StageType::TessellationControlShader,
        StageType::TessellationEvaluationShader,
    ] {
        let report = CompileReport { shader: 1, compiled: true, log: String::new() };
        assert_eq!(Stage::new(ty, report).unwrap_err(), StageError::UnsupportedType(ty));
        assert_eq!(shader_kind(ty), Err(StageError::UnsupportedType(ty)));
    }
    assert_eq!(shader_kind(StageType::VertexShader), Ok(gl::VERTEX_SHADER));
    assert_eq!(shader_kind(StageType::FragmentShader), Ok(gl::FRAGMENT_SHADER));
}

#[test]
fn absent_uniform_is_inactive_and_unbound_handle_drops_writes() {
    let mut b = builder();
    let r = b.ask::<i32>("u_missing");
    assert_eq!(r.unwrap_err(), UniformWarning::Inactive("u_missing".to_string()));
    let u: Uniform<i32> = b.ask_unbound("u_missing");
    assert!(!u.is_bound());
    assert_eq!(u.location(), UNBOUND_LOCATION);
    assert_eq!(u.write(42), None);
}

#[test]
fn asking_twice_gives_equal_handles() {
    let mut b = builder();
    let first = b.ask::<i32>("u_time").unwrap();
    let second = b.ask::<i32>("u_time").unwrap();
    assert_eq!(first.location(), second.location());
    assert_eq!(first.location(), 0);
    assert_eq!(first.write(7), second.write(7));
    assert_eq!(first.write(7), Some(UniformUpload { location: 0, data: UniformData::Int(7) }));
}

#[test]
fn type_mismatch_is_a_warning() {
    let mut b = builder();
    let r = b.ask::<u32>("u_time");
    assert_eq!(
        r.unwrap_err(),
        UniformWarning::TypeMismatch("u_time".to_string(), UniformType::UInt, UniformType::Int)
    );
    let u: Uniform<u32> = b.ask_unbound("u_time");
    assert_eq!(u.write(1), None);
}

#[test]
fn resolved_handles_encode_their_values() {
    let mut b = builder();
    let flag = b.ask::<bool>("u_flag").unwrap();
    assert_eq!(flag.write(true), Some(UniformUpload { location: 1, data: UniformData::Bool(1) }));
    assert_eq!(flag.write(false), Some(UniformUpload { location: 1, data: UniformData::Bool(0) }));
    let size = b.ask_unbound::<[u32; 2]>("u_size");
    assert!(size.is_bound());
    assert_eq!(
        size.write([640, 480]),
        Some(UniformUpload { location: 2, data: UniformData::UIVec2(640, 480) })
    );
    assert_eq!(b.program(), 3);
}

#[test]
fn first_uniform_of_a_name_wins() {
    let mut b = UniformBuilder::new(
        1,
        vec![
            ActiveUniform { name: "u".to_string(), location: 5, ty: UniformType::Int },
            ActiveUniform { name: "u".to_string(), location: 6, ty: UniformType::UInt },
        ],
    );
    assert_eq!(b.ask::<i32>("u").unwrap().location(), 5);
    assert!(b.ask::<u32>("u").is_err());
}

#[test]
fn uniform_type_codes_decode() {
    assert_eq!(UniformType::from_gl(0x1404), UniformType::Int);
    assert_eq!(UniformType::from_gl(0x8DC8), UniformType::UIVec4);
    assert_eq!(UniformType::from_gl(0x8B5E), UniformType::Sampler2D);
    assert_eq!(UniformType::from_gl(0x8B5D), UniformType::Other(0x8B5D));
}

#[test]
fn samplers_are_written_as_texture_units() {
    let mut b = UniformBuilder::new(
        2,
        vec![
            ActiveUniform { name: "u_tex".to_string(), location: 4, ty: UniformType::Sampler2D },
            ActiveUniform { name: "u_sky".to_string(), location: 5, ty: UniformType::SamplerCube },
        ],
    );
    let tex = b.ask::<Sampler2D>("u_tex").unwrap();
    assert_eq!(
        tex.write(Sampler2D { unit: 3 }),
        Some(UniformUpload { location: 4, data: UniformData::Sampler(3) })
    );
    let sky = b.ask::<SamplerCube>("u_sky").unwrap();
    assert_eq!(
        sky.write(SamplerCube { unit: 0 }),
        Some(UniformUpload { location: 5, data: UniformData::Sampler(0) })
    );
    assert!(b.ask::<Sampler2D>("u_sky").is_err());
}

#[test]
fn uniform_without_location_is_inactive() {
    let mut b = UniformBuilder::new(
        1,
        vec![ActiveUniform { name: "u_gone".to_string(), location: -1, ty: UniformType::Int }],
    );
    assert_eq!(b.ask::<i32>("u_gone").unwrap_err(), UniformWarning::Inactive("u_gone".to_string()));
    assert!(!b.ask_unbound::<i32>("u_gone").is_bound());
}

#[test]
fn unlisted_uniform_type_is_a_mismatch() {
    let mut b = UniformBuilder::new(
        1,
        vec![ActiveUniform { name: "u_odd".to_string(), location: 0, ty: UniformType::from_gl(0x9999) }],
    );
    assert_eq!(
        b.ask::<i32>("u_odd").unwrap_err(),
        UniformWarning::TypeMismatch("u_odd".to_string(), UniformType::Int, UniformType::Other(0x9999))
    );
}
