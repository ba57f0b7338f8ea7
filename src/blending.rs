//! Blending configuration and its driver encoding.
use crate::gl;
use vstd::prelude::*;

verus! {

/// Whether blending is enabled.
#[derive(Clone, Copy, Debug, PartialEq, Eq, Structural)]
pub enum BlendingState {
    On,
    Off,
}

/// Blending equation.
#[derive(Clone, Copy, Debug, PartialEq, Eq, Structural)]
pub enum Equation {
    Additive,
    Subtract,
    ReverseSubtract,
    Min,
    Max,
}

/// Blending factor.
#[derive(Clone, Copy, Debug, PartialEq, Eq, Structural)]
pub enum Factor {
    One,
    Zero,
    SrcColor,
    SrcColorComplement,
    DestColor,
    DestColorComplement,
    SrcAlpha,
    SrcAlphaComplement,
    DstAlpha,
    DstAlphaComplement,
    SrcAlphaSaturate,
}

/// The driver value of an equation.
pub open spec fn gl_equation(e: Equation) -> u32 {
    match e {
        Equation::Additive => gl::FUNC_ADD,
        Equation::Subtract => gl::FUNC_SUBTRACT,
        Equation::ReverseSubtract => gl::FUNC_REVERSE_SUBTRACT,
        Equation::Min => gl::MIN,
        Equation::Max => gl::MAX,
    }
}

/// The equation that a driver value stands for, if any.
pub open spec fn equation_of_gl(raw: u32) -> Option<Equation> {
    if raw == gl::FUNC_ADD {
        Some(Equation::Additive)
    } else if raw == gl::FUNC_SUBTRACT {
        Some(Equation::Subtract)
    } else if raw == gl::FUNC_REVERSE_SUBTRACT {
        Some(Equation::ReverseSubtract)
    } else if raw == gl::MIN {
        Some(Equation::Min)
    } else if raw == gl::MAX {
        Some(Equation::Max)
    } else {
        None
    }
}

/// The driver value of a factor.
pub open spec fn gl_factor(f: Factor) -> u32 {
    match f {
        Factor::One => gl::ONE,
        Factor::Zero => gl::ZERO,
        Factor::SrcColor => gl::SRC_COLOR,
        Factor::SrcColorComplement => gl::ONE_MINUS_SRC_COLOR,
        Factor::DestColor => gl::DST_COLOR,
        Factor::DestColorComplement => gl::ONE_MINUS_DST_COLOR,
        Factor::SrcAlpha => gl::SRC_ALPHA,
        Factor::SrcAlphaComplement => gl::ONE_MINUS_SRC_ALPHA,
        Factor::DstAlpha => gl::DST_ALPHA,
        Factor::DstAlphaComplement => gl::ONE_MINUS_DST_ALPHA,
        Factor::SrcAlphaSaturate => gl::SRC_ALPHA_SATURATE,
    }
}

/// The factor that a driver value stands for, if any.
pub open spec fn factor_of_gl(raw: u32) -> Option<Factor> {
    if raw == gl::ONE {
        Some(Factor::One)
    } else if raw == gl::ZERO {
        Some(Factor::Zero)
    } else if raw == gl::SRC_COLOR {
        Some(Factor::SrcColor)
    } else if raw == gl::ONE_MINUS_SRC_COLOR {
        Some(Factor::SrcColorComplement)
    } else if raw == gl::DST_COLOR {
        Some(Factor::DestColor)
    } else if raw == gl::ONE_MINUS_DST_COLOR {
        Some(Factor::DestColorComplement)
    } else if raw == gl::SRC_ALPHA {
        Some(Factor::SrcAlpha)
    } else if raw == gl::ONE_MINUS_SRC_ALPHA {
        Some(Factor::SrcAlphaComplement)
    } else if raw == gl::DST_ALPHA {
        Some(Factor::DstAlpha)
    } else if raw == gl::ONE_MINUS_DST_ALPHA {
        Some(Factor::DstAlphaComplement)
    } else if raw == gl::SRC_ALPHA_SATURATE {
        Some(Factor::SrcAlphaSaturate)
    } else {
        None
    }
}

impl Equation {
    /// The driver value of this equation.
    pub fn to_gl(self) -> (r: u32)
        ensures
            r == gl_equation(self),
    {
        match self {
            Equation::Additive => gl::FUNC_ADD,
            Equation::Subtract => gl::FUNC_SUBTRACT,
            Equation::ReverseSubtract => gl::FUNC_REVERSE_SUBTRACT,
            Equation::Min => gl::MIN,
            Equation::Max => gl::MAX,
        }
    }

    /// Decodes a driver value; `None` when it names no equation.
    pub fn from_gl(raw: u32) -> (r: Option<Equation>)
        ensures
            r == equation_of_gl(raw),
    {
        if raw == gl::FUNC_ADD {
            Some(Equation::Additive)
        } else if raw == gl::FUNC_SUBTRACT {
            Some(Equation::Subtract)
        } else if raw == gl::FUNC_REVERSE_SUBTRACT {
            Some(Equation::ReverseSubtract)
        } else if raw == gl::MIN {
            Some(Equation::Min)
        } else if raw == gl::MAX {
            Some(Equation::Max)
        } else {
            None
        }
    }
}

impl Factor {
    /// The driver value of this factor.
    pub fn to_gl(self) -> (r: u32)
        ensures
            r == gl_factor(self),
    {
        match self {
            Factor::One => gl::ONE,
            Factor::Zero => gl::ZERO,
            Factor::SrcColor => gl::SRC_COLOR,
            Factor::SrcColorComplement => gl::ONE_MINUS_SRC_COLOR,
            Factor::DestColor => gl::DST_COLOR,
            Factor::DestColorComplement => gl::ONE_MINUS_DST_COLOR,
            Factor::SrcAlpha => gl::SRC_ALPHA,
            Factor::SrcAlphaComplement => gl::ONE_MINUS_SRC_ALPHA,
            Factor::DstAlpha => gl::DST_ALPHA,
            Factor::DstAlphaComplement => gl::ONE_MINUS_DST_ALPHA,
            Factor::SrcAlphaSaturate => gl::SRC_ALPHA_SATURATE,
        }
    }
}

/// Decoding a driver value gives back exactly the equation or factor that
/// encodes to it: every equation and every factor survives the round trip,
/// and a value that decodes at all decodes to the one whose encoding it is.
pub proof fn lemma_blending_codec_round_trip(e: Equation, f: Factor, raw: u32)
    ensures
        equation_of_gl(gl_equation(e)) == Some(e),
        factor_of_gl(gl_factor(f)) == Some(f),
        equation_of_gl(raw) matches Some(x) ==> gl_equation(x) == raw,
        factor_of_gl(raw) matches Some(y) ==> gl_factor(y) == raw,
{
}

} // verus!
