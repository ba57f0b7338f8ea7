//! Face culling configuration and its driver encoding.
use crate::gl;
use vstd::prelude::*;

verus! {

/// Whether face culling is enabled.
#[derive(Clone, Copy, Debug, PartialEq, Eq, Structural)]
pub enum FaceCullingState {
    On,
    Off,
}

/// Winding order of front faces.
#[derive(Clone, Copy, Debug, PartialEq, Eq, Structural)]
pub enum FaceCullingOrder {
    CW,
    CCW,
}

/// Which faces are culled.
#[derive(Clone, Copy, Debug, PartialEq, Eq, Structural)]
pub enum FaceCullingMode {
    Front,
    Back,
    Both,
}

/// The driver value of a winding order.
pub open spec fn gl_face_culling_order(o: FaceCullingOrder) -> u32 {
    match o {
        FaceCullingOrder::CW => gl::CW,
        FaceCullingOrder::CCW => gl::CCW,
    }
}

/// The winding order that a driver value stands for, if any.
pub open spec fn face_culling_order_of_gl(raw: u32) -> Option<FaceCullingOrder> {
    if raw == gl::CCW {
        Some(FaceCullingOrder::CCW)
    } else if raw == gl::CW {
        Some(FaceCullingOrder::CW)
    } else {
        None
    }
}

/// The driver value of a culling mode.
pub open spec fn gl_face_culling_mode(m: FaceCullingMode) -> u32 {
    match m {
        FaceCullingMode::Front => gl::FRONT,
        FaceCullingMode::Back => gl::BACK,
        FaceCullingMode::Both => gl::FRONT_AND_BACK,
    }
}

/// The culling mode that a driver value stands for, if any.
pub open spec fn face_culling_mode_of_gl(raw: u32) -> Option<FaceCullingMode> {
    if raw == gl::FRONT {
        Some(FaceCullingMode::Front)
    } else if raw == gl::BACK {
        Some(FaceCullingMode::Back)
    } else if raw == gl::FRONT_AND_BACK {
        Some(FaceCullingMode::Both)
    } else {
        None
    }
}

impl FaceCullingOrder {
    /// The driver value of this winding order.
    pub fn to_gl(self) -> (r: u32)
        ensures
            r == gl_face_culling_order(self),
    {
        match self {
            FaceCullingOrder::CW => gl::CW,
            FaceCullingOrder::CCW => gl::CCW,
        }
    }
}

impl FaceCullingMode {
    /// The driver value of this culling mode.
    pub fn to_gl(self) -> (r: u32)
        ensures
            r == gl_face_culling_mode(self),
    {
        match self {
            FaceCullingMode::Front => gl::FRONT,
            FaceCullingMode::Back => gl::BACK,
            FaceCullingMode::Both => gl::FRONT_AND_BACK,
        }
    }
}

/// Decoding a driver value gives back exactly the winding order or culling
/// mode that encodes to it.
pub proof fn lemma_face_culling_codec_round_trip(o: FaceCullingOrder, m: FaceCullingMode, raw: u32)
    ensures
        face_culling_order_of_gl(gl_face_culling_order(o)) == Some(o),
        face_culling_mode_of_gl(gl_face_culling_mode(m)) == Some(m),
        face_culling_order_of_gl(raw) matches Some(x) ==> gl_face_culling_order(x) == raw,
        face_culling_mode_of_gl(raw) matches Some(y) ==> gl_face_culling_mode(y) == raw,
{
}

} // verus!
