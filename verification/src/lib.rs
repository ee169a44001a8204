//! The decision-making core of a small WebGL2 stage renderer.
//!
//! The crate never touches a rendering context.  Every operation is worked out
//! as the list of context calls it consists of, and the host page carries the
//! calls out one at a time and reports what the context answered.

pub mod context;
pub mod key_handler;
pub mod laws;
pub mod marshal;
pub mod rendering_backend;
pub mod shader;
pub mod stage;
pub mod webgl_const;
