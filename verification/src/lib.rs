//! A color-managed rendering core for a compositor color-management test
//! tool: a colorimetric matrix library (RGB-primary/XYZ conversion, Bradford
//! chromatic adaptation, white-balance rescaling), a scene compiler that
//! expands parametric test patterns into rectangle fills, and the
//! resource-lifecycle state machines of the GPU surface layer.
//!
//! All numeric work is carried out in exact decimal fixed-point arithmetic
//! (`fixed`), so every derivation is deterministic and fully specified.

pub mod cmm;
pub mod scene;
pub mod surface;
pub mod device;
pub mod fixed;
pub mod laws;
pub mod pane;
pub mod protocol;

use vstd::prelude::*;

verus! {

} // verus!
