//! Depth test configuration and its driver encoding.
use crate::gl;
use vstd::prelude::*;

verus! {

/// Whether the depth test is enabled.
#[derive(Clone, Copy, Debug, PartialEq, Eq, Structural)]
pub enum DepthTest {
    On,
    Off,
}

/// Depth comparison function.
#[derive(Clone, Copy, Debug, PartialEq, Eq, Structural)]
pub enum DepthComparison {
    Never,
    Always,
    Equal,
    NotEqual,
    Less,
    LessOrEqual,
    Greater,
    GreaterOrEqual,
}

/// The driver value of a depth comparison.
pub open spec fn gl_depth_comparison(c: DepthComparison) -> u32 {
    match c {
        DepthComparison::Never => gl::NEVER,
        DepthComparison::Always => gl::ALWAYS,
        DepthComparison::Equal => gl::EQUAL,
        DepthComparison::NotEqual => gl::NOTEQUAL,
        DepthComparison::Less => gl::LESS,
        DepthComparison::LessOrEqual => gl::LEQUAL,
        DepthComparison::Greater => gl::GREATER,
        DepthComparison::GreaterOrEqual => gl::GEQUAL,
    }
}

impl DepthComparison {
    /// The driver value of this comparison.
    pub fn to_gl(self) -> (r: u32)
        ensures
            r == gl_depth_comparison(self),
    {
        match self {
            DepthComparison::Never => gl::NEVER,
            DepthComparison::Always => gl::ALWAYS,
            DepthComparison::Equal => gl::EQUAL,
            DepthComparison::NotEqual => gl::NOTEQUAL,
            DepthComparison::Less => gl::LESS,
            DepthComparison::LessOrEqual => gl::LEQUAL,
            DepthComparison::Greater => gl::GREATER,
            DepthComparison::GreaterOrEqual => gl::GEQUAL,
        }
    }
}

} // verus!
