//! Building blocks of a two-dimensional raycaster: a vector type whose
//! components are IEEE-754 binary32 values held by their encodings, and the
//! pixel data that the renderer hands to a drawing surface.
//!
//! Everything here is exact: the operations on encodings are those that the
//! standard defines bit for bit (sign flip, comparison, the constants zero and
//! one). Arithmetic that rounds is left to the floating-point unit of the host.

pub mod binary32;
pub mod pixel;
pub mod vec2;

pub use pixel::{opaque_pixels, startup_patch, Patch};
pub use vec2::{Direction2D, Point2D, Vec2};
