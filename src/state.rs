//! Shadow copy of the pipeline state of one WebGL2 context.
//!
//! The shadow is seeded once from what the live driver reports, then changed
//! only through [`GraphicsState::set`] and the setters built on it; each of
//! them says which driver call the change needs, or none when the shadow
//! already holds the requested value.
use crate::blending::{
    equation_of_gl, factor_of_gl, gl_equation, gl_factor, BlendingState, Equation, Factor,
};
use crate::depth_test::{gl_depth_comparison, DepthComparison, DepthTest};
use crate::face_culling::{
    face_culling_mode_of_gl, face_culling_order_of_gl, gl_face_culling_mode,
    gl_face_culling_order, FaceCullingMode, FaceCullingOrder, FaceCullingState,
};
use crate::gl;
use crate::gl::GlCall;
use crate::vertex_restart::VertexRestart;
use vstd::prelude::*;

verus! {

/// Number of texture units that every WebGL2 implementation offers.
pub const TEXTURE_UNIT_COUNT: usize = 48;
/// Number of uniform buffer bindings that every WebGL2 implementation offers.
pub const UNIFORM_BUFFER_COUNT: usize = 36;

/// Why a graphics state could not be built.
#[derive(Clone, Copy, Debug, PartialEq, Eq, Structural)]
pub enum StateQueryError {
    /// A graphics state is already live for this context.
    UnavailableGraphicsState,
    UnknownBlendingEquation(u32),
    UnknownBlendingSrcFactor(u32),
    UnknownBlendingDstFactor(u32),
    UnknownFaceCullingOrder(u32),
    UnknownFaceCullingMode(u32),
}

/// The values that a live WebGL2 context reports for the queried state.
#[derive(Clone, Copy, Debug, PartialEq, Eq, Structural)]
pub struct ContextSnapshot {
    /// `isEnabled(BLEND)`
    pub blend: bool,
    /// `getParameter(BLEND_EQUATION_RGB)`
    pub blend_equation_rgb: u32,
    /// `getParameter(BLEND_SRC_RGB)`
    pub blend_src_rgb: i32,
    /// `getParameter(BLEND_DST_RGB)`
    pub blend_dst_rgb: i32,
    /// `isEnabled(DEPTH_TEST)`
    pub depth_test: bool,
    /// `isEnabled(CULL_FACE)`
    pub cull_face: bool,
    /// `getParameter(FRONT_FACE)`
    pub front_face: u32,
    /// `getParameter(CULL_FACE_MODE)`
    pub cull_face_mode: u32,
    /// `getParameter(ACTIVE_TEXTURE)`
    pub active_texture: u32,
    /// `getParameter(DRAW_FRAMEBUFFER_BINDING)`
    pub draw_framebuffer_binding: u32,
    /// `getParameter(VERTEX_ARRAY_BINDING)`
    pub vertex_array_binding: u32,
    /// `getParameter(CURRENT_PROGRAM)`
    pub current_program: u32,
}

/// The mathematical content of a [`GraphicsState`].
pub struct GraphicsStateView {
    pub blending_state: BlendingState,
    pub blending_equation: Equation,
    pub blending_func: (Factor, Factor),
    pub depth_test: DepthTest,
    pub depth_test_comparison: DepthComparison,
    pub face_culling_state: FaceCullingState,
    pub face_culling_order: FaceCullingOrder,
    pub face_culling_mode: FaceCullingMode,
    pub vertex_restart: VertexRestart,
    /// The active texture unit, as the driver names it (`TEXTURE0` plus
    /// the unit's index).
    pub current_texture_unit: u32,
    /// Target and texture object bound on each unit.
    pub bound_textures: Seq<(u32, u32)>,
    pub bound_uniform_buffers: Seq<u32>,
    pub bound_array_buffer: u32,
    pub bound_element_array_buffer: u32,
    pub bound_draw_framebuffer: u32,
    pub bound_vertex_array: u32,
    pub current_program: u32,
}

/// One cacheable piece of pipeline state, with the value requested for it.
#[derive(Clone, Copy, Debug, PartialEq, Eq, Structural)]
pub enum Setting {
    Blending(BlendingState),
    BlendingEquation(Equation),
    /// Source and destination factors.
    BlendingFactors(Factor, Factor),
    DepthTest(DepthTest),
    DepthComparison(DepthComparison),
    FaceCulling(FaceCullingState),
    FaceCullingOrder(FaceCullingOrder),
    FaceCullingMode(FaceCullingMode),
    /// The texture unit to make active, as the driver names it.
    TextureUnit(u32),
    /// Target and texture object, bound on the active texture unit.
    Texture(u32, u32),
    /// Binding index and buffer object.
    UniformBuffer(u32, u32),
    ArrayBuffer(u32),
    ElementArrayBuffer(u32),
    DrawFramebuffer(u32),
    VertexArray(u32),
    Program(u32),
}

/// The driver call that puts a setting into effect.
pub open spec fn call_for(s: Setting) -> GlCall {
    match s {
        Setting::Blending(b) => match b {
            BlendingState::On => GlCall::Enable(gl::BLEND),
            BlendingState::Off => GlCall::Disable(gl::BLEND),
        },
        Setting::BlendingEquation(e) => GlCall::BlendEquation(gl_equation(e)),
        Setting::BlendingFactors(src, dst) => GlCall::BlendFunc(gl_factor(src), gl_factor(dst)),
        Setting::DepthTest(d) => match d {
            DepthTest::On => GlCall::Enable(gl::DEPTH_TEST),
            DepthTest::Off => GlCall::Disable(gl::DEPTH_TEST),
        },
        Setting::DepthComparison(c) => GlCall::DepthFunc(gl_depth_comparison(c)),
        Setting::FaceCulling(f) => match f {
            FaceCullingState::On => GlCall::Enable(gl::CULL_FACE),
            FaceCullingState::Off => GlCall::Disable(gl::CULL_FACE),
        },
        Setting::FaceCullingOrder(o) => GlCall::FrontFace(gl_face_culling_order(o)),
        Setting::FaceCullingMode(m) => GlCall::CullFace(gl_face_culling_mode(m)),
        Setting::TextureUnit(u) => GlCall::ActiveTexture(u),
        Setting::Texture(t, o) => GlCall::BindTexture(t, o),
        Setting::UniformBuffer(i, b) => GlCall::BindBufferBase(gl::UNIFORM_BUFFER, i, b),
        Setting::ArrayBuffer(b) => GlCall::BindBuffer(gl::ARRAY_BUFFER, b),
        Setting::ElementArrayBuffer(b) => GlCall::BindBuffer(gl::ELEMENT_ARRAY_BUFFER, b),
        Setting::DrawFramebuffer(f) => GlCall::BindFramebuffer(gl::DRAW_FRAMEBUFFER, f),
        Setting::VertexArray(v) => GlCall::BindVertexArray(v),
        Setting::Program(p) => GlCall::UseProgram(p),
    }
}

/// The driver calls that a setting needs in a state: none when it already holds.
pub open spec fn calls_needed(st: GraphicsStateView, s: Setting) -> Seq<GlCall> {
    if st.holds(s) {
        seq![]
    } else {
        seq![call_for(s)]
    }
}

impl GraphicsStateView {
    /// The array-shaped fields have the lengths that every implementation offers.
    pub open spec fn wf(self) -> bool {
        &&& self.bound_textures.len() == TEXTURE_UNIT_COUNT
        &&& self.bound_uniform_buffers.len() == UNIFORM_BUFFER_COUNT
    }

    /// Index, among the tracked texture units, of the active one.
    pub open spec fn texture_slot(self) -> int {
        self.current_texture_unit - gl::TEXTURE0
    }

    /// The setting is shadowed: every field is, but for a texture on an
    /// active unit past the tracked ones, or a uniform buffer binding past
    /// the tracked ones.
    pub open spec fn admits(self, s: Setting) -> bool {
        match s {
            Setting::Texture(_, _) => 0 <= self.texture_slot() < TEXTURE_UNIT_COUNT,
            Setting::UniformBuffer(i, _) => i < UNIFORM_BUFFER_COUNT,
            _ => true,
        }
    }

    /// The state already has the value that the setting asks for; never so
    /// for a setting that is not shadowed.
    pub open spec fn holds(self, s: Setting) -> bool {
        match s {
            Setting::Blending(b) => self.blending_state == b,
            Setting::BlendingEquation(e) => self.blending_equation == e,
            Setting::BlendingFactors(src, dst) => self.blending_func == (src, dst),
            Setting::DepthTest(d) => self.depth_test == d,
            Setting::DepthComparison(c) => self.depth_test_comparison == c,
            Setting::FaceCulling(f) => self.face_culling_state == f,
            Setting::FaceCullingOrder(o) => self.face_culling_order == o,
            Setting::FaceCullingMode(m) => self.face_culling_mode == m,
            Setting::TextureUnit(u) => self.current_texture_unit == u,
            Setting::Texture(t, o) => self.admits(s) && self.bound_textures[self.texture_slot()]
                == (t, o),
            Setting::UniformBuffer(i, b) => self.admits(s) && self.bound_uniform_buffers[i as int]
                == b,
            Setting::ArrayBuffer(b) => self.bound_array_buffer == b,
            Setting::ElementArrayBuffer(b) => self.bound_element_array_buffer == b,
            Setting::DrawFramebuffer(f) => self.bound_draw_framebuffer == f,
            Setting::VertexArray(v) => self.bound_vertex_array == v,
            Setting::Program(p) => self.current_program == p,
        }
    }

    /// The state with the setting applied and every other field unchanged;
    /// a setting that is not shadowed leaves the state as it is.
    pub open spec fn with(self, s: Setting) -> GraphicsStateView {
        match s {
            Setting::Blending(b) => GraphicsStateView { blending_state: b, ..self },
            Setting::BlendingEquation(e) => GraphicsStateView { blending_equation: e, ..self },
            Setting::BlendingFactors(src, dst) => GraphicsStateView {
                blending_func: (src, dst),
                ..self
            },
            Setting::DepthTest(d) => GraphicsStateView { depth_test: d, ..self },
            Setting::DepthComparison(c) => GraphicsStateView { depth_test_comparison: c, ..self },
            Setting::FaceCulling(f) => GraphicsStateView { face_culling_state: f, ..self },
            Setting::FaceCullingOrder(o) => GraphicsStateView { face_culling_order: o, ..self },
            Setting::FaceCullingMode(m) => GraphicsStateView { face_culling_mode: m, ..self },
            Setting::TextureUnit(u) => GraphicsStateView { current_texture_unit: u, ..self },
            Setting::Texture(t, o) => if self.admits(s) {
                GraphicsStateView {
                    bound_textures: self.bound_textures.update(self.texture_slot(), (t, o)),
                    ..self
                }
            } else {
                self
            },
            Setting::UniformBuffer(i, b) => if self.admits(s) {
                GraphicsStateView {
                    bound_uniform_buffers: self.bound_uniform_buffers.update(i as int, b),
                    ..self
                }
            } else {
                self
            },
            Setting::ArrayBuffer(b) => GraphicsStateView { bound_array_buffer: b, ..self },
            Setting::ElementArrayBuffer(b) => GraphicsStateView {
                bound_element_array_buffer: b,
                ..self
            },
            Setting::DrawFramebuffer(f) => GraphicsStateView { bound_draw_framebuffer: f, ..self },
            Setting::VertexArray(v) => GraphicsStateView { bound_vertex_array: v, ..self },
            Setting::Program(p) => GraphicsStateView { current_program: p, ..self },
        }
    }
}

/// The state that a context reports, or the first value in it that names
/// nothing known. Texture and uniform buffer slots, the array and element
/// buffers and the depth comparison are not queried: they are seeded with the
/// unbound object and `Less`. Primitive restart is always on in WebGL2.
pub open spec fn bootstrap(ctx: ContextSnapshot) -> Result<GraphicsStateView, StateQueryError> {
    match equation_of_gl(ctx.blend_equation_rgb) {
        None => Err(StateQueryError::UnknownBlendingEquation(ctx.blend_equation_rgb)),
        Some(equation) => match factor_of_gl(ctx.blend_src_rgb as u32) {
            None => Err(StateQueryError::UnknownBlendingSrcFactor(ctx.blend_src_rgb as u32)),
            Some(src) => match factor_of_gl(ctx.blend_dst_rgb as u32) {
                None => Err(StateQueryError::UnknownBlendingDstFactor(ctx.blend_dst_rgb as u32)),
                Some(dst) => match face_culling_order_of_gl(ctx.front_face) {
                    None => Err(StateQueryError::UnknownFaceCullingOrder(ctx.front_face)),
                    Some(order) => match face_culling_mode_of_gl(ctx.cull_face_mode) {
                        None => Err(StateQueryError::UnknownFaceCullingMode(ctx.cull_face_mode)),
                        Some(mode) => Ok(
                                GraphicsStateView {
                                    blending_state: if ctx.blend {
                                        BlendingState::On
                                    } else {
                                        BlendingState::Off
                                    },
                                    blending_equation: equation,
                                    blending_func: (src, dst),
                                    depth_test: if ctx.depth_test {
                                        DepthTest::On
                                    } else {
                                        DepthTest::Off
                                    },
                                    depth_test_comparison: DepthComparison::Less,
                                    face_culling_state: if ctx.cull_face {
                                        FaceCullingState::On
                                    } else {
                                        FaceCullingState::Off
                                    },
                                    face_culling_order: order,
                                    face_culling_mode: mode,
                                    vertex_restart: VertexRestart::On,
                                    current_texture_unit: ctx.active_texture,
                                    bound_textures: Seq::new(
                                        TEXTURE_UNIT_COUNT as nat,
                                        |i: int| (gl::TEXTURE_2D, 0u32),
                                    ),
                                    bound_uniform_buffers: Seq::new(
                                        UNIFORM_BUFFER_COUNT as nat,
                                        |i: int| 0u32,
                                    ),
                                    bound_array_buffer: 0,
                                    bound_element_array_buffer: 0,
                                    bound_draw_framebuffer: ctx.draw_framebuffer_binding,
                                    bound_vertex_array: ctx.vertex_array_binding,
                                    current_program: ctx.current_program,
                                },
                            ),
                    },
                },
            },
        },
    }
}

/// The state after the three blending settings, applied in order.
pub open spec fn blending_applied(
    st: GraphicsStateView,
    state: BlendingState,
    equation: Equation,
    src: Factor,
    dst: Factor,
) -> GraphicsStateView {
    st.with(Setting::Blending(state)).with(Setting::BlendingEquation(equation)).with(
        Setting::BlendingFactors(src, dst),
    )
}

/// The driver calls that the three blending settings need, applied in order.
pub open spec fn blending_calls(
    st: GraphicsStateView,
    state: BlendingState,
    equation: Equation,
    src: Factor,
    dst: Factor,
) -> Seq<GlCall> {
    let s1 = st.with(Setting::Blending(state));
    let s2 = s1.with(Setting::BlendingEquation(equation));
    calls_needed(st, Setting::Blending(state)) + calls_needed(
        s1,
        Setting::BlendingEquation(equation),
    ) + calls_needed(s2, Setting::BlendingFactors(src, dst))
}

/// What an attempt to build a state does: whether the slot is free
/// afterwards, and the state built or the error.
pub open spec fn acquire_outcome(available: bool, ctx: ContextSnapshot) -> (
    bool,
    Result<GraphicsStateView, StateQueryError>,
) {
    if !available {
        (false, Err(StateQueryError::UnavailableGraphicsState))
    } else {
        match bootstrap(ctx) {
            Ok(v) => (false, Ok(v)),
            Err(e) => (true, Err(e)),
        }
    }
}

/// The permit to hold one live [`GraphicsState`] for a context.
///
/// Keep exactly one slot per context (for instance in a thread-local cell):
/// a state is built only while the slot is free, and gives it back through
/// [`StateSlot::release`].
#[derive(Debug)]
pub struct StateSlot {
    available: bool,
}

impl StateSlot {
    /// No state holds the slot.
    pub closed spec fn is_available(&self) -> bool {
        self.available
    }

    /// A free slot.
    pub fn new() -> (r: StateSlot)
        ensures
            r.is_available(),
    {
        StateSlot { available: true }
    }

    /// Whether no state holds the slot.
    pub fn available(&self) -> (r: bool)
        ensures
            r == self.is_available(),
    {
        self.available
    }

    /// Tears a state down and frees the slot for the next one.
    #[allow(unused_variables)]
    pub fn release(&mut self, state: GraphicsState)
        ensures
            final(self).is_available(),
    {
        self.available = true;
    }
}

/// Shadow copy of the pipeline state of one WebGL2 context.
#[derive(Debug)]
pub struct GraphicsState {
    blending_state: BlendingState,
    blending_equation: Equation,
    blending_func: (Factor, Factor),
    depth_test: DepthTest,
    depth_test_comparison: DepthComparison,
    face_culling_state: FaceCullingState,
    face_culling_order: FaceCullingOrder,
    face_culling_mode: FaceCullingMode,
    vertex_restart: VertexRestart,
    current_texture_unit: u32,
    bound_textures: Vec<(u32, u32)>,
    bound_uniform_buffers: Vec<u32>,
    bound_array_buffer: u32,
    bound_element_array_buffer: u32,
    bound_draw_framebuffer: u32,
    bound_vertex_array: u32,
    current_program: u32,
}

impl View for GraphicsState {
    type V = GraphicsStateView;

    closed spec fn view(&self) -> GraphicsStateView {
        GraphicsStateView {
            blending_state: self.blending_state,
            blending_equation: self.blending_equation,
            blending_func: self.blending_func,
            depth_test: self.depth_test,
            depth_test_comparison: self.depth_test_comparison,
            face_culling_state: self.face_culling_state,
            face_culling_order: self.face_culling_order,
            face_culling_mode: self.face_culling_mode,
            vertex_restart: self.vertex_restart,
            current_texture_unit: self.current_texture_unit,
            bound_textures: self.bound_textures@,
            bound_uniform_buffers: self.bound_uniform_buffers@,
            bound_array_buffer: self.bound_array_buffer,
            bound_element_array_buffer: self.bound_element_array_buffer,
            bound_draw_framebuffer: self.bound_draw_framebuffer,
            bound_vertex_array: self.bound_vertex_array,
            current_program: self.current_program,
        }
    }
}

impl GraphicsState {
    /// Well-formed: the array-shaped fields have their fixed lengths.
    pub open spec fn wf(&self) -> bool {
        self@.wf()
    }

    /// Builds the state of a context from what the context reports, when the
    /// slot is free; the slot is held by the state on success and stays free
    /// on failure.
    pub fn new(slot: &mut StateSlot, ctx: &ContextSnapshot) -> (r: Result<GraphicsState, StateQueryError>)
        ensures
            final(slot).is_available() == acquire_outcome(old(slot).is_available(), *ctx).0,
            match r {
                Ok(s) => s.wf() && acquire_outcome(old(slot).is_available(), *ctx).1 == Ok::<
                    GraphicsStateView,
                    StateQueryError,
                >(s@),
                Err(e) => acquire_outcome(old(slot).is_available(), *ctx).1 == Err::<
                    GraphicsStateView,
                    StateQueryError,
                >(e),
            },
    {
        if !slot.available {
            return Err(StateQueryError::UnavailableGraphicsState);
        }
        slot.available = false;
        let r = Self::get_from_context(ctx);
        if r.is_err() {
            slot.available = true;
        }
        r
    }

    /// Reads every queried field from the context.
    pub fn get_from_context(ctx: &ContextSnapshot) -> (r: Result<GraphicsState, StateQueryError>)
        ensures
            match r {
                Ok(s) => s.wf() && bootstrap(*ctx) == Ok::<GraphicsStateView, StateQueryError>(s@),
                Err(e) => bootstrap(*ctx) == Err::<GraphicsStateView, StateQueryError>(e),
            },
    {
        let blending_state = Self::get_ctx_blending_state(ctx)?;
        let blending_equation = Self::get_ctx_blending_equation(ctx)?;
        let blending_func = Self::get_ctx_blending_factors(ctx)?;
        let depth_test = Self::get_ctx_depth_test(ctx)?;
        let depth_test_comparison = DepthComparison::Less;
        let face_culling_state = Self::get_ctx_face_culling_state(ctx)?;
        let face_culling_order = Self::get_ctx_face_culling_order(ctx)?;
        let face_culling_mode = Self::get_ctx_face_culling_mode(ctx)?;
        let vertex_restart = Self::get_ctx_vertex_restart(ctx)?;
        let current_texture_unit = Self::get_ctx_current_texture_unit(ctx)?;
        let mut bound_textures: Vec<(u32, u32)> = Vec::new();
        while bound_textures.len() < TEXTURE_UNIT_COUNT
            invariant
                bound_textures.len() <= TEXTURE_UNIT_COUNT,
                forall|i: int| 0 <= i < bound_textures.len() ==> bound_textures@[i] == (gl::TEXTURE_2D, 0u32),
            decreases TEXTURE_UNIT_COUNT - bound_textures.len(),
        {
            bound_textures.push((gl::TEXTURE_2D, 0));
        }
        let mut bound_uniform_buffers: Vec<u32> = Vec::new();
        while bound_uniform_buffers.len() < UNIFORM_BUFFER_COUNT
            invariant
                bound_uniform_buffers.len() <= UNIFORM_BUFFER_COUNT,
                forall|i: int| 0 <= i < bound_uniform_buffers.len() ==> bound_uniform_buffers@[i] == 0u32,
            decreases UNIFORM_BUFFER_COUNT - bound_uniform_buffers.len(),
        {
            bound_uniform_buffers.push(0);
        }
        let bound_draw_framebuffer = Self::get_ctx_bound_draw_framebuffer(ctx)?;
        let bound_vertex_array = Self::get_ctx_bound_vertex_array(ctx)?;
        let current_program = Self::get_ctx_current_program(ctx)?;
        let s = GraphicsState {
            blending_state,
            blending_equation,
            blending_func,
            depth_test,
            depth_test_comparison,
            face_culling_state,
            face_culling_order,
            face_culling_mode,
            vertex_restart,
            current_texture_unit,
            bound_textures,
            bound_uniform_buffers,
            bound_array_buffer: 0,
            bound_element_array_buffer: 0,
            bound_draw_framebuffer,
            bound_vertex_array,
            current_program,
        };
        assert(s@.bound_textures =~= bootstrap(*ctx)->Ok_0.bound_textures);
        assert(s@.bound_uniform_buffers =~= bootstrap(*ctx)->Ok_0.bound_uniform_buffers);
        Ok(s)
    }

    /// Blending is on exactly when the context says it is enabled.
    pub fn get_ctx_blending_state(ctx: &ContextSnapshot) -> (r: Result<BlendingState, StateQueryError>)
        ensures
            r == Ok::<BlendingState, StateQueryError>(
                if ctx.blend {
                    BlendingState::On
                } else {
                    BlendingState::Off
                },
            ),
    {
        if ctx.blend {
            Ok(BlendingState::On)
        } else {
            Ok(BlendingState::Off)
        }
    }

    /// The reported blending equation, or the raw value when it names none.
    pub fn get_ctx_blending_equation(ctx: &ContextSnapshot) -> (r: Result<Equation, StateQueryError>)
        ensures
            r == match equation_of_gl(ctx.blend_equation_rgb) {
                Some(e) => Ok(e),
                None => Err(StateQueryError::UnknownBlendingEquation(ctx.blend_equation_rgb)),
            },
    {
        match Equation::from_gl(ctx.blend_equation_rgb) {
            Some(e) => Ok(e),
            None => Err(StateQueryError::UnknownBlendingEquation(ctx.blend_equation_rgb)),
        }
    }

    /// The reported source and destination factors; the source is decoded
    /// first.
    pub fn get_ctx_blending_factors(ctx: &ContextSnapshot) -> (r: Result<
        (Factor, Factor),
        StateQueryError,
    >)
        ensures
            r == match factor_of_gl(ctx.blend_src_rgb as u32) {
                None => Err(StateQueryError::UnknownBlendingSrcFactor(ctx.blend_src_rgb as u32)),
                Some(src) => match factor_of_gl(ctx.blend_dst_rgb as u32) {
                    None => Err(
                        StateQueryError::UnknownBlendingDstFactor(ctx.blend_dst_rgb as u32),
                    ),
                    Some(dst) => Ok((src, dst)),
                },
            },
    {
        let src = ctx.blend_src_rgb as u32;
        let dst = ctx.blend_dst_rgb as u32;
        let src_k = match Self::from_gl_blending_factor(src) {
            Ok(k) => k,
            Err(raw) => return Err(StateQueryError::UnknownBlendingSrcFactor(raw)),
        };
        let dst_k = match Self::from_gl_blending_factor(dst) {
            Ok(k) => k,
            Err(raw) => return Err(StateQueryError::UnknownBlendingDstFactor(raw)),
        };
        Ok((src_k, dst_k))
    }

    /// Decodes a blending factor; the raw value comes back when it names none.
    pub fn from_gl_blending_factor(factor: u32) -> (r: Result<Factor, u32>)
        ensures
            r == match factor_of_gl(factor) {
                Some(f) => Ok(f),
                None => Err(factor),
            },
    {
        if factor == gl::ONE {
            Ok(Factor::One)
        } else if factor == gl::ZERO {
            Ok(Factor::Zero)
        } else if factor == gl::SRC_COLOR {
            Ok(Factor::SrcColor)
        } else if factor == gl::ONE_MINUS_SRC_COLOR {
            Ok(Factor::SrcColorComplement)
        } else if factor == gl::DST_COLOR {
            Ok(Factor::DestColor)
        } else if factor == gl::ONE_MINUS_DST_COLOR {
            Ok(Factor::DestColorComplement)
        } else if factor == gl::SRC_ALPHA {
            Ok(Factor::SrcAlpha)
        } else if factor == gl::ONE_MINUS_SRC_ALPHA {
            Ok(Factor::SrcAlphaComplement)
        } else if factor == gl::DST_ALPHA {
            Ok(Factor::DstAlpha)
        } else if factor == gl::ONE_MINUS_DST_ALPHA {
            Ok(Factor::DstAlphaComplement)
        } else if factor == gl::SRC_ALPHA_SATURATE {
            Ok(Factor::SrcAlphaSaturate)
        } else {
            Err(factor)
        }
    }

    /// The depth test is on exactly when the context says it is enabled.
    pub fn get_ctx_depth_test(ctx: &ContextSnapshot) -> (r: Result<DepthTest, StateQueryError>)
        ensures
            r == Ok::<DepthTest, StateQueryError>(
                if ctx.depth_test {
                    DepthTest::On
                } else {
                    DepthTest::Off
                },
            ),
    {
        let test = if ctx.depth_test {
            DepthTest::On
        } else {
            DepthTest::Off
        };
        Ok(test)
    }

    /// Face culling is on exactly when the context says it is enabled.
    pub fn get_ctx_face_culling_state(ctx: &ContextSnapshot) -> (r: Result<
        FaceCullingState,
        StateQueryError,
    >)
        ensures
            r == Ok::<FaceCullingState, StateQueryError>(
                if ctx.cull_face {
                    FaceCullingState::On
                } else {
                    FaceCullingState::Off
                },
            ),
    {
        let state = if ctx.cull_face {
            FaceCullingState::On
        } else {
            FaceCullingState::Off
        };
        Ok(state)
    }

    /// The reported winding order, or the raw value when it names none.
    pub fn get_ctx_face_culling_order(ctx: &ContextSnapshot) -> (r: Result<
        FaceCullingOrder,
        StateQueryError,
    >)
        ensures
            r == match face_culling_order_of_gl(ctx.front_face) {
                Some(o) => Ok(o),
                None => Err(StateQueryError::UnknownFaceCullingOrder(ctx.front_face)),
            },
    {
        let order = ctx.front_face;
        if order == gl::CCW {
            Ok(FaceCullingOrder::CCW)
        } else if order == gl::CW {
            Ok(FaceCullingOrder::CW)
        } else {
            Err(StateQueryError::UnknownFaceCullingOrder(order))
        }
    }

    /// The reported culling mode, or the raw value when it names none.
    pub fn get_ctx_face_culling_mode(ctx: &ContextSnapshot) -> (r: Result<
        FaceCullingMode,
        StateQueryError,
    >)
        ensures
            r == match face_culling_mode_of_gl(ctx.cull_face_mode) {
                Some(m) => Ok(m),
                None => Err(StateQueryError::UnknownFaceCullingMode(ctx.cull_face_mode)),
            },
    {
        let mode = ctx.cull_face_mode;
        if mode == gl::FRONT {
            Ok(FaceCullingMode::Front)
        } else if mode == gl::BACK {
            Ok(FaceCullingMode::Back)
        } else if mode == gl::FRONT_AND_BACK {
            Ok(FaceCullingMode::Both)
        } else {
            Err(StateQueryError::UnknownFaceCullingMode(mode))
        }
    }

    /// WebGL2 can neither enable nor disable primitive restart: it is on.
    pub fn get_ctx_vertex_restart(ctx: &ContextSnapshot) -> (r: Result<VertexRestart, StateQueryError>)
        ensures
            r == Ok::<VertexRestart, StateQueryError>(VertexRestart::On),
    {
        Ok(VertexRestart::On)
    }

    /// The reported active texture unit.
    pub fn get_ctx_current_texture_unit(ctx: &ContextSnapshot) -> (r: Result<u32, StateQueryError>)
        ensures
            r == Ok::<u32, StateQueryError>(ctx.active_texture),
    {
        let active_texture = ctx.active_texture;
        Ok(active_texture)
    }

    /// The reported draw framebuffer.
    pub fn get_ctx_bound_draw_framebuffer(ctx: &ContextSnapshot) -> (r: Result<u32, StateQueryError>)
        ensures
            r == Ok::<u32, StateQueryError>(ctx.draw_framebuffer_binding),
    {
        let bound = ctx.draw_framebuffer_binding;
        Ok(bound)
    }

    /// The reported vertex array.
    pub fn get_ctx_bound_vertex_array(ctx: &ContextSnapshot) -> (r: Result<u32, StateQueryError>)
        ensures
            r == Ok::<u32, StateQueryError>(ctx.vertex_array_binding),
    {
        let bound = ctx.vertex_array_binding;
        Ok(bound)
    }

    /// The reported program in use.
    pub fn get_ctx_current_program(ctx: &ContextSnapshot) -> (r: Result<u32, StateQueryError>)
        ensures
            r == Ok::<u32, StateQueryError>(ctx.current_program),
    {
        let used = ctx.current_program;
        Ok(used)
    }

    /// Applies a setting to the shadow. The driver call it needs comes back,
    /// or nothing when the shadow already holds the requested value. A
    /// setting that is not shadowed (see [`GraphicsStateView::admits`])
    /// leaves the shadow as it is and always gives its call.
    pub fn set(&mut self, s: Setting) -> (call: Option<GlCall>)
        requires
            old(self).wf(),
        ensures
            final(self).wf(),
            final(self)@ == old(self)@.with(s),
            call == if old(self)@.holds(s) {
                None
            } else {
                Some(call_for(s))
            },
    {
        match s {
            Setting::Blending(b) => self.set_blending_state(b),
            Setting::BlendingEquation(e) => self.set_blending_equation(e),
            Setting::BlendingFactors(src, dst) => self.set_blending_factors(src, dst),
            Setting::DepthTest(d) => self.set_depth_test(d),
            Setting::DepthComparison(c) => self.set_depth_test_comparison(c),
            Setting::FaceCulling(f) => self.set_face_culling_state(f),
            Setting::FaceCullingOrder(o) => self.set_face_culling_order(o),
            Setting::FaceCullingMode(m) => self.set_face_culling_mode(m),
            Setting::TextureUnit(u) => self.set_texture_unit(u),
            Setting::Texture(t, o) => self.bind_texture(t, o),
            Setting::UniformBuffer(i, b) => self.bind_uniform_buffer(i, b),
            Setting::ArrayBuffer(b) => self.bind_array_buffer(b),
            Setting::ElementArrayBuffer(b) => self.bind_element_array_buffer(b),
            Setting::DrawFramebuffer(f) => self.bind_draw_framebuffer(f),
            Setting::VertexArray(v) => self.bind_vertex_array(v),
            Setting::Program(p) => self.use_program(p),
        }
    }

    /// Enables or disables blending. Same as [`GraphicsState::set`] on the matching setting.
    pub fn set_blending_state(&mut self, b: BlendingState) -> (call: Option<GlCall>)
        requires
            old(self).wf(),
        ensures
            final(self).wf(),
            final(self)@ == old(self)@.with(Setting::Blending(b)),
            call == if old(self)@.holds(Setting::Blending(b)) {
                None
            } else {
                Some(call_for(Setting::Blending(b)))
            },
    {
        if self.blending_state == b {
            return None;
        }
        self.blending_state = b;
        match b {
            BlendingState::On => Some(GlCall::Enable(gl::BLEND)),
            BlendingState::Off => Some(GlCall::Disable(gl::BLEND)),
        }
    }

    /// Sets the blending equation. Same as [`GraphicsState::set`] on the matching setting.
    pub fn set_blending_equation(&mut self, e: Equation) -> (call: Option<GlCall>)
        requires
            old(self).wf(),
        ensures
            final(self).wf(),
            final(self)@ == old(self)@.with(Setting::BlendingEquation(e)),
            call == if old(self)@.holds(Setting::BlendingEquation(e)) {
                None
            } else {
                Some(call_for(Setting::BlendingEquation(e)))
            },
    {
        if self.blending_equation == e {
            return None;
        }
        self.blending_equation = e;
        Some(GlCall::BlendEquation(e.to_gl()))
    }

    /// Sets the source and destination blending factors. Same as [`GraphicsState::set`] on the matching setting.
    pub fn set_blending_factors(&mut self, src: Factor, dst: Factor) -> (call: Option<GlCall>)
        requires
            old(self).wf(),
        ensures
            final(self).wf(),
            final(self)@ == old(self)@.with(Setting::BlendingFactors(src, dst)),
            call == if old(self)@.holds(Setting::BlendingFactors(src, dst)) {
                None
            } else {
                Some(call_for(Setting::BlendingFactors(src, dst)))
            },
    {
        if self.blending_func.0 == src && self.blending_func.1 == dst {
            return None;
        }
        self.blending_func = (src, dst);
        Some(GlCall::BlendFunc(src.to_gl(), dst.to_gl()))
    }

    /// Enables or disables the depth test. Same as [`GraphicsState::set`] on the matching setting.
    pub fn set_depth_test(&mut self, d: DepthTest) -> (call: Option<GlCall>)
        requires
            old(self).wf(),
        ensures
            final(self).wf(),
            final(self)@ == old(self)@.with(Setting::DepthTest(d)),
            call == if old(self)@.holds(Setting::DepthTest(d)) {
                None
            } else {
                Some(call_for(Setting::DepthTest(d)))
            },
    {
        if self.depth_test == d {
            return None;
        }
        self.depth_test = d;
        match d {
            DepthTest::On => Some(GlCall::Enable(gl::DEPTH_TEST)),
            DepthTest::Off => Some(GlCall::Disable(gl::DEPTH_TEST)),
        }
    }

    /// Sets the depth comparison function. Same as [`GraphicsState::set`] on the matching setting.
    pub fn set_depth_test_comparison(&mut self, c: DepthComparison) -> (call: Option<GlCall>)
        requires
            old(self).wf(),
        ensures
            final(self).wf(),
            final(self)@ == old(self)@.with(Setting::DepthComparison(c)),
            call == if old(self)@.holds(Setting::DepthComparison(c)) {
                None
            } else {
                Some(call_for(Setting::DepthComparison(c)))
            },
    {
        if self.depth_test_comparison == c {
            return None;
        }
        self.depth_test_comparison = c;
        Some(GlCall::DepthFunc(c.to_gl()))
    }

    /// Enables or disables face culling. Same as [`GraphicsState::set`] on the matching setting.
    pub fn set_face_culling_state(&mut self, f: FaceCullingState) -> (call: Option<GlCall>)
        requires
            old(self).wf(),
        ensures
            final(self).wf(),
            final(self)@ == old(self)@.with(Setting::FaceCulling(f)),
            call == if old(self)@.holds(Setting::FaceCulling(f)) {
                None
            } else {
                Some(call_for(Setting::FaceCulling(f)))
            },
    {
        if self.face_culling_state == f {
            return None;
        }
        self.face_culling_state = f;
        match f {
            FaceCullingState::On => Some(GlCall::Enable(gl::CULL_FACE)),
            FaceCullingState::Off => Some(GlCall::Disable(gl::CULL_FACE)),
        }
    }

    /// Sets the winding order of front faces. Same as [`GraphicsState::set`] on the matching setting.
    pub fn set_face_culling_order(&mut self, o: FaceCullingOrder) -> (call: Option<GlCall>)
        requires
            old(self).wf(),
        ensures
            final(self).wf(),
            final(self)@ == old(self)@.with(Setting::FaceCullingOrder(o)),
            call == if old(self)@.holds(Setting::FaceCullingOrder(o)) {
                None
            } else {
                Some(call_for(Setting::FaceCullingOrder(o)))
            },
    {
        if self.face_culling_order == o {
            return None;
        }
        self.face_culling_order = o;
        Some(GlCall::FrontFace(o.to_gl()))
    }

    /// Sets which faces are culled. Same as [`GraphicsState::set`] on the matching setting.
    pub fn set_face_culling_mode(&mut self, m: FaceCullingMode) -> (call: Option<GlCall>)
        requires
            old(self).wf(),
        ensures
            final(self).wf(),
            final(self)@ == old(self)@.with(Setting::FaceCullingMode(m)),
            call == if old(self)@.holds(Setting::FaceCullingMode(m)) {
                None
            } else {
                Some(call_for(Setting::FaceCullingMode(m)))
            },
    {
        if self.face_culling_mode == m {
            return None;
        }
        self.face_culling_mode = m;
        Some(GlCall::CullFace(m.to_gl()))
    }

    /// Makes a texture unit active, as the driver names it. Same as [`GraphicsState::set`] on the matching setting.
    pub fn set_texture_unit(&mut self, u: u32) -> (call: Option<GlCall>)
        requires
            old(self).wf(),
        ensures
            final(self).wf(),
            final(self)@ == old(self)@.with(Setting::TextureUnit(u)),
            call == if old(self)@.holds(Setting::TextureUnit(u)) {
                None
            } else {
                Some(call_for(Setting::TextureUnit(u)))
            },
    {
        if self.current_texture_unit == u {
            return None;
        }
        self.current_texture_unit = u;
        Some(GlCall::ActiveTexture(u))
    }

    /// Binds a texture object on the active texture unit. Same as [`GraphicsState::set`] on the matching setting.
    pub fn bind_texture(&mut self, t: u32, o: u32) -> (call: Option<GlCall>)
        requires
            old(self).wf(),
        ensures
            final(self).wf(),
            final(self)@ == old(self)@.with(Setting::Texture(t, o)),
            call == if old(self)@.holds(Setting::Texture(t, o)) {
                None
            } else {
                Some(call_for(Setting::Texture(t, o)))
            },
    {
        if self.current_texture_unit < gl::TEXTURE0 || self.current_texture_unit - gl::TEXTURE0
            >= TEXTURE_UNIT_COUNT as u32 {
            return Some(GlCall::BindTexture(t, o));
        }
        let unit = (self.current_texture_unit - gl::TEXTURE0) as usize;
        let bound = self.bound_textures[unit];
        if bound.0 == t && bound.1 == o {
            assert(self.bound_textures@.update(unit as int, (t, o)) =~= self.bound_textures@);
            return None;
        }
        self.bound_textures.set(unit, (t, o));
        Some(GlCall::BindTexture(t, o))
    }

    /// Binds a buffer object on a uniform buffer binding. Same as [`GraphicsState::set`] on the matching setting.
    pub fn bind_uniform_buffer(&mut self, i: u32, b: u32) -> (call: Option<GlCall>)
        requires
            old(self).wf(),
        ensures
            final(self).wf(),
            final(self)@ == old(self)@.with(Setting::UniformBuffer(i, b)),
            call == if old(self)@.holds(Setting::UniformBuffer(i, b)) {
                None
            } else {
                Some(call_for(Setting::UniformBuffer(i, b)))
            },
    {
        if i >= UNIFORM_BUFFER_COUNT as u32 {
            return Some(GlCall::BindBufferBase(gl::UNIFORM_BUFFER, i, b));
        }
        if self.bound_uniform_buffers[i as usize] == b {
            assert(self.bound_uniform_buffers@.update(i as int, b) =~= self.bound_uniform_buffers@);
            return None;
        }
        self.bound_uniform_buffers.set(i as usize, b);
        Some(GlCall::BindBufferBase(gl::UNIFORM_BUFFER, i, b))
    }

    /// Binds the array buffer. Same as [`GraphicsState::set`] on the matching setting.
    pub fn bind_array_buffer(&mut self, b: u32) -> (call: Option<GlCall>)
        requires
            old(self).wf(),
        ensures
            final(self).wf(),
            final(self)@ == old(self)@.with(Setting::ArrayBuffer(b)),
            call == if old(self)@.holds(Setting::ArrayBuffer(b)) {
                None
            } else {
                Some(call_for(Setting::ArrayBuffer(b)))
            },
    {
        if self.bound_array_buffer == b {
            return None;
        }
        self.bound_array_buffer = b;
        Some(GlCall::BindBuffer(gl::ARRAY_BUFFER, b))
    }

    /// Binds the element array buffer. Same as [`GraphicsState::set`] on the matching setting.
    pub fn bind_element_array_buffer(&mut self, b: u32) -> (call: Option<GlCall>)
        requires
            old(self).wf(),
        ensures
            final(self).wf(),
            final(self)@ == old(self)@.with(Setting::ElementArrayBuffer(b)),
            call == if old(self)@.holds(Setting::ElementArrayBuffer(b)) {
                None
            } else {
                Some(call_for(Setting::ElementArrayBuffer(b)))
            },
    {
        if self.bound_element_array_buffer == b {
            return None;
        }
        self.bound_element_array_buffer = b;
        Some(GlCall::BindBuffer(gl::ELEMENT_ARRAY_BUFFER, b))
    }

    /// Binds the draw framebuffer. Same as [`GraphicsState::set`] on the matching setting.
    pub fn bind_draw_framebuffer(&mut self, f: u32) -> (call: Option<GlCall>)
        requires
            old(self).wf(),
        ensures
            final(self).wf(),
            final(self)@ == old(self)@.with(Setting::DrawFramebuffer(f)),
            call == if old(self)@.holds(Setting::DrawFramebuffer(f)) {
                None
            } else {
                Some(call_for(Setting::DrawFramebuffer(f)))
            },
    {
        if self.bound_draw_framebuffer == f {
            return None;
        }
        self.bound_draw_framebuffer = f;
        Some(GlCall::BindFramebuffer(gl::DRAW_FRAMEBUFFER, f))
    }

    /// Binds the vertex array. Same as [`GraphicsState::set`] on the matching setting.
    pub fn bind_vertex_array(&mut self, v: u32) -> (call: Option<GlCall>)
        requires
            old(self).wf(),
        ensures
            final(self).wf(),
            final(self)@ == old(self)@.with(Setting::VertexArray(v)),
            call == if old(self)@.holds(Setting::VertexArray(v)) {
                None
            } else {
                Some(call_for(Setting::VertexArray(v)))
            },
    {
        if self.bound_vertex_array == v {
            return None;
        }
        self.bound_vertex_array = v;
        Some(GlCall::BindVertexArray(v))
    }

    /// Makes a program current. Same as [`GraphicsState::set`] on the matching setting.
    pub fn use_program(&mut self, p: u32) -> (call: Option<GlCall>)
        requires
            old(self).wf(),
        ensures
            final(self).wf(),
            final(self)@ == old(self)@.with(Setting::Program(p)),
            call == if old(self)@.holds(Setting::Program(p)) {
                None
            } else {
                Some(call_for(Setting::Program(p)))
            },
    {
        if self.current_program == p {
            return None;
        }
        self.current_program = p;
        Some(GlCall::UseProgram(p))
    }

    /// Whether blending is enabled.
    pub fn blending_state(&self) -> (r: BlendingState)
        ensures
            r == self@.blending_state,
    {
        self.blending_state
    }

    /// The blending equation.
    pub fn blending_equation(&self) -> (r: Equation)
        ensures
            r == self@.blending_equation,
    {
        self.blending_equation
    }

    /// The source and destination blending factors.
    pub fn blending_factors(&self) -> (r: (Factor, Factor))
        ensures
            r == self@.blending_func,
    {
        self.blending_func
    }

    /// Whether the depth test is enabled.
    pub fn depth_test(&self) -> (r: DepthTest)
        ensures
            r == self@.depth_test,
    {
        self.depth_test
    }

    /// The depth comparison function.
    pub fn depth_test_comparison(&self) -> (r: DepthComparison)
        ensures
            r == self@.depth_test_comparison,
    {
        self.depth_test_comparison
    }

    /// Whether face culling is enabled.
    pub fn face_culling_state(&self) -> (r: FaceCullingState)
        ensures
            r == self@.face_culling_state,
    {
        self.face_culling_state
    }

    /// The winding order of front faces.
    pub fn face_culling_order(&self) -> (r: FaceCullingOrder)
        ensures
            r == self@.face_culling_order,
    {
        self.face_culling_order
    }

    /// Which faces are culled.
    pub fn face_culling_mode(&self) -> (r: FaceCullingMode)
        ensures
            r == self@.face_culling_mode,
    {
        self.face_culling_mode
    }

    /// Whether primitive restart is enabled.
    pub fn vertex_restart(&self) -> (r: VertexRestart)
        ensures
            r == self@.vertex_restart,
    {
        self.vertex_restart
    }

    /// The active texture unit, as the driver names it.
    pub fn current_texture_unit(&self) -> (r: u32)
        ensures
            r == self@.current_texture_unit,
    {
        self.current_texture_unit
    }

    /// The bound array buffer.
    pub fn bound_array_buffer(&self) -> (r: u32)
        ensures
            r == self@.bound_array_buffer,
    {
        self.bound_array_buffer
    }

    /// The bound element array buffer.
    pub fn bound_element_array_buffer(&self) -> (r: u32)
        ensures
            r == self@.bound_element_array_buffer,
    {
        self.bound_element_array_buffer
    }

    /// The bound draw framebuffer.
    pub fn bound_draw_framebuffer(&self) -> (r: u32)
        ensures
            r == self@.bound_draw_framebuffer,
    {
        self.bound_draw_framebuffer
    }

    /// The bound vertex array.
    pub fn bound_vertex_array(&self) -> (r: u32)
        ensures
            r == self@.bound_vertex_array,
    {
        self.bound_vertex_array
    }

    /// The program in use.
    pub fn current_program(&self) -> (r: u32)
        ensures
            r == self@.current_program,
    {
        self.current_program
    }

    /// Target and texture object bound on a texture unit.
    pub fn bound_texture(&self, unit: usize) -> (r: (u32, u32))
        requires
            self.wf(),
            unit < TEXTURE_UNIT_COUNT,
        ensures
            r == self@.bound_textures[unit as int],
    {
        self.bound_textures[unit]
    }

    /// Buffer object bound on a uniform buffer binding.
    pub fn bound_uniform_buffer(&self, index: usize) -> (r: u32)
        requires
            self.wf(),
            index < UNIFORM_BUFFER_COUNT,
        ensures
            r == self@.bound_uniform_buffers[index as int],
    {
        self.bound_uniform_buffers[index]
    }

    /// Sets the whole blending configuration: enabled or not, equation, and
    /// factors, in that order. The driver calls needed come back in order,
    /// without those whose value the shadow already holds.
    pub fn set_blending(&mut self, state: BlendingState, equation: Equation, src: Factor, dst: Factor) -> (calls: Vec<GlCall>)
        requires
            old(self).wf(),
        ensures
            final(self).wf(),
            final(self)@ == blending_applied(old(self)@, state, equation, src, dst),
            calls@ == blending_calls(old(self)@, state, equation, src, dst),
    {
        let mut calls: Vec<GlCall> = Vec::new();
        if let Some(c) = self.set_blending_state(state) {
            calls.push(c);
        }
        if let Some(c) = self.set_blending_equation(equation) {
            calls.push(c);
        }
        if let Some(c) = self.set_blending_factors(src, dst) {
            calls.push(c);
        }
        proof {
            let s0 = old(self)@;
            let s1 = s0.with(Setting::Blending(state));
            let s2 = s1.with(Setting::BlendingEquation(equation));
            assert(calls@ =~= calls_needed(s0, Setting::Blending(state)) + calls_needed(
                s1,
                Setting::BlendingEquation(equation),
            ) + calls_needed(s2, Setting::BlendingFactors(src, dst)));
        }
        calls
    }
}

/// Setting a value twice in a row needs the driver at most once, for every
/// setting that the shadow tracks: right after it is applied the shadow
/// holds it, and a second application needs no call and leaves the shadow
/// as it is. A texture on an active unit past the tracked ones, or a uniform
/// buffer binding past the tracked ones, is not shadowed: its call comes
/// back each time.
pub proof fn lemma_set_twice_elides(st: GraphicsStateView, s: Setting)
    requires
        st.wf(),
        st.admits(s),
    ensures
        st.with(s).wf(),
        st.with(s).admits(s),
        st.with(s).holds(s),
        calls_needed(st.with(s), s) == Seq::<GlCall>::empty(),
        st.with(s).with(s) == st.with(s),
{
    match s {
        Setting::Texture(t, o) => {
            assert(st.with(s).with(s).bound_textures =~= st.with(s).bound_textures);
        },
        Setting::UniformBuffer(i, b) => {
            assert(st.with(s).with(s).bound_uniform_buffers =~= st.with(s).bound_uniform_buffers);
        },
        _ => {},
    }
}

/// Setting the same blending configuration twice in a row: the second time
/// no driver call is needed and the shadow does not change.
pub proof fn lemma_set_blending_twice_elides(
    st: GraphicsStateView,
    state: BlendingState,
    equation: Equation,
    src: Factor,
    dst: Factor,
)
    requires
        st.wf(),
    ensures
        blending_calls(blending_applied(st, state, equation, src, dst), state, equation, src, dst)
            == Seq::<GlCall>::empty(),
        blending_applied(blending_applied(st, state, equation, src, dst), state, equation, src, dst)
            == blending_applied(st, state, equation, src, dst),
{
    let s3 = blending_applied(st, state, equation, src, dst);
    assert(blending_calls(s3, state, equation, src, dst) =~= Seq::<GlCall>::empty());
}

/// After a successful bootstrap every field of the shadow is the value that
/// the driver reported, read back through the field's driver encoding; the
/// fields that are not queried hold their documented seeds.
pub proof fn lemma_shadow_fidelity(ctx: ContextSnapshot)
    requires
        bootstrap(ctx) is Ok,
    ensures
        ({
            let v = bootstrap(ctx)->Ok_0;
            &&& v.wf()
            &&& (v.blending_state == BlendingState::On) == ctx.blend
            &&& gl_equation(v.blending_equation) == ctx.blend_equation_rgb
            &&& gl_factor(v.blending_func.0) == ctx.blend_src_rgb as u32
            &&& gl_factor(v.blending_func.1) == ctx.blend_dst_rgb as u32
            &&& (v.depth_test == DepthTest::On) == ctx.depth_test
            &&& v.depth_test_comparison == DepthComparison::Less
            &&& (v.face_culling_state == FaceCullingState::On) == ctx.cull_face
            &&& gl_face_culling_order(v.face_culling_order) == ctx.front_face
            &&& gl_face_culling_mode(v.face_culling_mode) == ctx.cull_face_mode
            &&& v.vertex_restart == VertexRestart::On
            &&& v.current_texture_unit == ctx.active_texture
            &&& forall|i: int| 0 <= i < TEXTURE_UNIT_COUNT ==> v.bound_textures[i] == (gl::TEXTURE_2D, 0u32)
            &&& forall|i: int| 0 <= i < UNIFORM_BUFFER_COUNT ==> v.bound_uniform_buffers[i] == 0u32
            &&& v.bound_array_buffer == 0
            &&& v.bound_element_array_buffer == 0
            &&& v.bound_draw_framebuffer == ctx.draw_framebuffer_binding
            &&& v.bound_vertex_array == ctx.vertex_array_binding
            &&& v.current_program == ctx.current_program
        }),
{
}

/// A blending equation that no known equation encodes to is never given a
/// default: decoding finds nothing, and the bootstrap fails with that very
/// value.
pub proof fn lemma_unknown_equation_rejected(ctx: ContextSnapshot)
    requires
        forall|e: Equation| gl_equation(e) != ctx.blend_equation_rgb,
    ensures
        equation_of_gl(ctx.blend_equation_rgb) is None,
        bootstrap(ctx) == Err::<GraphicsStateView, StateQueryError>(
            StateQueryError::UnknownBlendingEquation(ctx.blend_equation_rgb),
        ),
{
    if equation_of_gl(ctx.blend_equation_rgb) is Some {
        let e = equation_of_gl(ctx.blend_equation_rgb)->Some_0;
        assert(gl_equation(e) == ctx.blend_equation_rgb);
    }
}

/// Once a state is built, the slot is held, and every later attempt to build
/// one, whatever the context reports, fails with
/// `UnavailableGraphicsState` and leaves the slot held.
pub proof fn lemma_single_instance_exclusion(first: ContextSnapshot, later: ContextSnapshot)
    requires
        acquire_outcome(true, first).1 is Ok,
    ensures
        !acquire_outcome(true, first).0,
        acquire_outcome(false, later) == (
            false,
            Err::<GraphicsStateView, StateQueryError>(StateQueryError::UnavailableGraphicsState),
        ),
{
}

} // verus!
