//! Primitive restart.
use vstd::prelude::*;

verus! {

/// Whether primitive restart is enabled. WebGL2 keeps it on at all times.
#[derive(Clone, Copy, Debug, PartialEq, Eq, Structural)]
pub enum VertexRestart {
    On,
    Off,
}

} // verus!
