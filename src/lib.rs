//! State tracking and typed uniform binding for a WebGL2 driver.
//!
//! The driver itself is reached by the caller: this crate decodes what the
//! driver reports, keeps a shadow copy of the pipeline state, and says which
//! driver calls a requested change needs.

pub mod blending;
pub mod depth_test;
pub mod face_culling;
pub mod gl;
pub mod shader;
pub mod state;
pub mod vertex_restart;
