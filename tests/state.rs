use luminance::blending::{BlendingState, Equation, Factor};
use luminance::depth_test::{DepthComparison, DepthTest};
use luminance::face_culling::{FaceCullingMode, FaceCullingOrder, FaceCullingState};
use luminance::gl;
use luminance::gl::GlCall;
use luminance::state::{
    ContextSnapshot, GraphicsState, Setting, StateQueryError, StateSlot, TEXTURE_UNIT_COUNT,
    UNIFORM_BUFFER_COUNT,
};
use luminance::vertex_restart::VertexRestart;

fn default_context() -> ContextSnapshot {
    ContextSnapshot {
        blend: false,
        blend_equation_rgb: gl::FUNC_ADD,
        blend_src_rgb: gl::ONE as i32,
        blend_dst_rgb: gl::ZERO as i32,
        depth_test: false,
        cull_face: false,
        front_face: gl::CCW,
        cull_face_mode: gl::BACK,
        active_texture: gl::TEXTURE0,
        draw_framebuffer_binding: 0,
        vertex_array_binding: 0,
        current_program: 0,
    }
}

fn fresh_state(ctx: &ContextSnapshot) -> GraphicsState {
    GraphicsState::get_from_context(ctx).unwrap()
}

#[test]
fn bootstrap_reads_blending_off_and_depth_test_on() {
    let mut ctx = default_context();
    ctx.depth_test = true;
    let mut slot = StateSlot::new();
    let st = GraphicsState::new(&mut slot, &ctx).unwrap();
    assert_eq!(st.blending_state(), BlendingState::Off);
    assert_eq!(st.depth_test(), DepthTest::On);
    assert!(!slot.available());
}

#[test]
fn bootstrap_mirrors_every_reported_field() {
    let ctx = ContextSnapshot {
        blend: true,
        blend_equation_rgb: gl::FUNC_REVERSE_SUBTRACT,
        blend_src_rgb: gl::SRC_ALPHA as i32,
        blend_dst_rgb: gl::ONE_MINUS_SRC_ALPHA as i32,
        depth_test: true,
        cull_face: true,
        front_face: gl::CW,
        cull_face_mode: gl::FRONT_AND_BACK,
        active_texture: gl::TEXTURE0 + 5,
        draw_framebuffer_binding: 7,
        vertex_array_binding: 9,
        current_program: 11,
    };
    let st = fresh_state(&ctx);
    assert_eq!(st.blending_state(), BlendingState::On);
    assert_eq!(st.blending_equation(), Equation::ReverseSubtract);
    assert_eq!(st.blending_factors(), (Factor::SrcAlpha, Factor::SrcAlphaComplement));
    assert_eq!(st.depth_test(), DepthTest::On);
    assert_eq!(st.depth_test_comparison(), DepthComparison::Less);
    assert_eq!(st.face_culling_state(), FaceCullingState::On);
    assert_eq!(st.face_culling_order(), FaceCullingOrder::CW);
    assert_eq!(st.face_culling_mode(), FaceCullingMode::Both);
    assert_eq!(st.vertex_restart(), VertexRestart::On);
    assert_eq!(st.current_texture_unit(), gl::TEXTURE0 + 5);
    assert_eq!(st.bound_draw_framebuffer(), 7);
    assert_eq!(st.bound_vertex_array(), 9);
    assert_eq!(st.current_program(), 11);
    assert_eq!(st.bound_array_buffer(), 0);
    assert_eq!(st.bound_element_array_buffer(), 0);
    for u in 0..TEXTURE_UNIT_COUNT {
        assert_eq!(st.bound_texture(u), (gl::TEXTURE_2D, 0));
    }
    for i in 0..UNIFORM_BUFFER_COUNT {
        assert_eq!(st.bound_uniform_buffer(i), 0);
    }
}

#[test]
fn second_state_is_refused_while_first_is_live() {
    let ctx = default_context();
    let mut slot = StateSlot::new();
    let first = GraphicsState::new(&mut slot, &ctx).unwrap();
    for _ in 0..3 {
        let again = GraphicsState::new(&mut slot, &ctx);
        assert_eq!(again.unwrap_err(), StateQueryError::UnavailableGraphicsState);
    }
    slot.release(first);
    assert!(slot.available());
    assert!(GraphicsState::new(&mut slot, &ctx).is_ok());
}

#[test]
fn failed_bootstrap_frees_the_slot() {
    let mut ctx = default_context();
    ctx.front_face = 0x1234;
    let mut slot = StateSlot::new();
    let r = GraphicsState::new(&mut slot, &ctx);
    assert_eq!(r.unwrap_err(), StateQueryError::UnknownFaceCullingOrder(0x1234));
    assert!(slot.available());
    assert!(GraphicsState::new(&mut slot, &default_context()).is_ok());
}

#[test]
fn unknown_blending_equation_is_rejected() {
    for raw in [0u32, 1, 0x8005, 0x8009, 0xFFFF_FFFF] {
        let mut ctx = default_context();
        ctx.blend_equation_rgb = raw;
        assert_eq!(
            GraphicsState::get_from_context(&ctx).unwrap_err(),
            StateQueryError::UnknownBlendingEquation(raw)
        );
        assert_eq!(
            GraphicsState::get_ctx_blending_equation(&ctx),
            Err(StateQueryError::UnknownBlendingEquation(raw))
        );
    }
}

#[test]
fn known_blending_equations_decode() {
    let cases = [
        (gl::FUNC_ADD, Equation::Additive),
        (gl::FUNC_SUBTRACT, Equation::Subtract),
        (gl::FUNC_REVERSE_SUBTRACT, Equation::ReverseSubtract),
        (gl::MIN, Equation::Min),
        (gl::MAX, Equation::Max),
    ];
    for (raw, e) in cases {
        let mut ctx = default_context();
        ctx.blend_equation_rgb = raw;
        assert_eq!(GraphicsState::get_ctx_blending_equation(&ctx), Ok(e));
        assert_eq!(e.to_gl(), raw);
    }
}

#[test]
fn every_bootstrap_error_carries_its_raw_value() {
    let mut ctx = default_context();
    ctx.blend_src_rgb = 0x0999;
    assert_eq!(
        GraphicsState::get_from_context(&ctx).unwrap_err(),
        StateQueryError::UnknownBlendingSrcFactor(0x0999)
    );
    let mut ctx = default_context();
    ctx.blend_dst_rgb = -1;
    assert_eq!(
        GraphicsState::get_from_context(&ctx).unwrap_err(),
        StateQueryError::UnknownBlendingDstFactor(0xFFFF_FFFF)
    );
    let mut ctx = default_context();
    ctx.cull_face_mode = gl::CW;
    assert_eq!(
        GraphicsState::get_from_context(&ctx).unwrap_err(),
        StateQueryError::UnknownFaceCullingMode(gl::CW)
    );
}

#[test]
fn blending_factor_decoding() {
    assert_eq!(GraphicsState::from_gl_blending_factor(gl::ONE), Ok(Factor::One));
    assert_eq!(GraphicsState::from_gl_blending_factor(gl::ZERO), Ok(Factor::Zero));
    assert_eq!(
        GraphicsState::from_gl_blending_factor(gl::SRC_ALPHA_SATURATE),
        Ok(Factor::SrcAlphaSaturate)
    );
    assert_eq!(
        GraphicsState::from_gl_blending_factor(gl::ONE_MINUS_DST_COLOR),
        Ok(Factor::DestColorComplement)
    );
    assert_eq!(GraphicsState::from_gl_blending_factor(0x0309), Err(0x0309));
    assert_eq!(Factor::DstAlphaComplement.to_gl(), 0x0305);
}

#[test]
fn identical_blending_twice_issues_calls_once() {
    let mut st = fresh_state(&default_context());
    let first = st.set_blending(BlendingState::On, Equation::Additive, Factor::One, Factor::Zero);
    assert_eq!(first, vec![GlCall::Enable(gl::BLEND)]);
    let second = st.set_blending(BlendingState::On, Equation::Additive, Factor::One, Factor::Zero);
    assert_eq!(second, Vec::<GlCall>::new());
    assert_eq!(st.blending_state(), BlendingState::On);
}

#[test]
fn blending_change_issues_each_differing_call_in_order() {
    let mut st = fresh_state(&default_context());
    let calls = st.set_blending(BlendingState::On, Equation::Max, Factor::SrcAlpha, Factor::DstAlpha);
    assert_eq!(
        calls,
        vec![
            GlCall::Enable(gl::BLEND),
            GlCall::BlendEquation(gl::MAX),
            GlCall::BlendFunc(gl::SRC_ALPHA, gl::DST_ALPHA),
        ]
    );
    let again = st.set_blending(BlendingState::On, Equation::Max, Factor::SrcAlpha, Factor::DstAlpha);
    assert!(again.is_empty());
}

#[test]
fn every_setting_twice_issues_at_most_one_call() {
    let settings = [
        (Setting::Blending(BlendingState::On), GlCall::Enable(gl::BLEND)),
        (Setting::BlendingEquation(Equation::Min), GlCall::BlendEquation(gl::MIN)),
        (
            Setting::BlendingFactors(Factor::SrcColor, Factor::DestColor),
            GlCall::BlendFunc(gl::SRC_COLOR, gl::DST_COLOR),
        ),
        (Setting::DepthTest(DepthTest::On), GlCall::Enable(gl::DEPTH_TEST)),
        (Setting::DepthComparison(DepthComparison::GreaterOrEqual), GlCall::DepthFunc(gl::GEQUAL)),
        (Setting::FaceCulling(FaceCullingState::On), GlCall::Enable(gl::CULL_FACE)),
        (Setting::FaceCullingOrder(FaceCullingOrder::CW), GlCall::FrontFace(gl::CW)),
        (Setting::FaceCullingMode(FaceCullingMode::Front), GlCall::CullFace(gl::FRONT)),
        (Setting::TextureUnit(gl::TEXTURE0 + 3), GlCall::ActiveTexture(gl::TEXTURE0 + 3)),
        (Setting::Texture(gl::TEXTURE_2D, 4), GlCall::BindTexture(gl::TEXTURE_2D, 4)),
        (Setting::UniformBuffer(35, 8), GlCall::BindBufferBase(gl::UNIFORM_BUFFER, 35, 8)),
        (Setting::ArrayBuffer(2), GlCall::BindBuffer(gl::ARRAY_BUFFER, 2)),
        (Setting::ElementArrayBuffer(6), GlCall::BindBuffer(gl::ELEMENT_ARRAY_BUFFER, 6)),
        (Setting::DrawFramebuffer(1), GlCall::BindFramebuffer(gl::DRAW_FRAMEBUFFER, 1)),
        (Setting::VertexArray(12), GlCall::BindVertexArray(12)),
        (Setting::Program(13), GlCall::UseProgram(13)),
    ];
    let mut st = fresh_state(&default_context());
    for (s, call) in settings {
        assert_eq!(st.set(s), Some(call));
        assert_eq!(st.set(s), None);
    }
    assert_eq!(st.current_texture_unit(), gl::TEXTURE0 + 3);
    assert_eq!(st.bound_texture(3), (gl::TEXTURE_2D, 4));
    assert_eq!(st.bound_texture(0), (gl::TEXTURE_2D, 0));
    assert_eq!(st.bound_uniform_buffer(35), 8);
    assert_eq!(st.current_program(), 13);
}

#[test]
fn setting_the_held_value_issues_nothing() {
    let mut st = fresh_state(&default_context());
    assert_eq!(st.set_blending_state(BlendingState::Off), None);
    assert_eq!(st.set_depth_test(DepthTest::Off), None);
    assert_eq!(st.set_face_culling_mode(FaceCullingMode::Back), None);
    assert_eq!(st.use_program(0), None);
    assert_eq!(st.bind_texture(gl::TEXTURE_2D, 0), None);
    assert_eq!(st.set_depth_test_comparison(DepthComparison::Less), None);
    assert_eq!(st.set_blending_state(BlendingState::On), Some(GlCall::Enable(gl::BLEND)));
    assert_eq!(st.set_blending_state(BlendingState::Off), Some(GlCall::Disable(gl::BLEND)));
}

#[test]
fn textures_are_bound_per_unit() {
    let mut st = fresh_state(&default_context());
    assert_eq!(st.bind_texture(gl::TEXTURE_2D, 1), Some(GlCall::BindTexture(gl::TEXTURE_2D, 1)));
    assert_eq!(st.set_texture_unit(gl::TEXTURE0 + 47), Some(GlCall::ActiveTexture(gl::TEXTURE0 + 47)));
    assert_eq!(st.bind_texture(gl::TEXTURE_2D, 1), Some(GlCall::BindTexture(gl::TEXTURE_2D, 1)));
    assert_eq!(st.bind_texture(gl::TEXTURE_2D, 1), None);
    assert_eq!(st.set_texture_unit(gl::TEXTURE0), Some(GlCall::ActiveTexture(gl::TEXTURE0)));
    assert_eq!(st.bind_texture(gl::TEXTURE_2D, 1), None);
}

#[test]
fn codecs_give_driver_values() {
    assert_eq!(DepthComparison::LessOrEqual.to_gl(), 0x0203);
    assert_eq!(DepthComparison::Never.to_gl(), 0x0200);
    assert_eq!(FaceCullingOrder::CCW.to_gl(), 0x0901);
    assert_eq!(FaceCullingMode::Both.to_gl(), 0x0408);
    assert_eq!(Equation::Subtract.to_gl(), 0x800A);
    assert_eq!(Equation::from_gl(0x8008), Some(Equation::Max));
    assert_eq!(Equation::from_gl(0x8009), None);
}

#[test]
fn any_reported_active_texture_is_kept() {
    let mut ctx = default_context();
    ctx.depth_test = true;
    ctx.active_texture = 0;
    assert_eq!(GraphicsState::get_ctx_current_texture_unit(&ctx), Ok(0));
    let st = fresh_state(&ctx);
    assert_eq!(st.current_texture_unit(), 0);
    assert_eq!(st.blending_state(), BlendingState::Off);
    assert_eq!(st.depth_test(), DepthTest::On);
}

#[test]
fn untracked_slots_always_give_their_call() {
    let mut ctx = default_context();
    ctx.active_texture = gl::TEXTURE0 + 60;
    let mut st = fresh_state(&ctx);
    assert_eq!(st.bind_texture(gl::TEXTURE_2D, 2), Some(GlCall::BindTexture(gl::TEXTURE_2D, 2)));
    assert_eq!(st.bind_texture(gl::TEXTURE_2D, 2), Some(GlCall::BindTexture(gl::TEXTURE_2D, 2)));
    assert_eq!(
        st.bind_uniform_buffer(36, 1),
        Some(GlCall::BindBufferBase(gl::UNIFORM_BUFFER, 36, 1))
    );
    assert_eq!(
        st.bind_uniform_buffer(36, 1),
        Some(GlCall::BindBufferBase(gl::UNIFORM_BUFFER, 36, 1))
    );
    assert_eq!(st.bound_texture(0), (gl::TEXTURE_2D, 0));
}
