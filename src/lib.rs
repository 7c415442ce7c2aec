//! The decision logic of a sphere tracer over signed distance fields: colour
//! arithmetic for shading, the face priority of cuboid colouring, when a trace
//! stops (hit, divergence, or a spent step budget), and pixel indexing. The
//! floating-point geometry that feeds these decisions lives with the caller.

pub mod colour;
pub mod face;
pub mod march;
pub mod pixel;
