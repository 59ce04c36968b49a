//! A small 2D quad batch renderer: per-frame geometry is gathered into a
//! vertex list, textures are multiplexed over a fixed table of sampler slots,
//! and one indexed draw call is described per frame.
//!
//! The GPU and window calls themselves live with the application; this crate
//! holds the batching rules, the texture slot table and the image-decoding
//! step, all with machine-checked contracts.
use vstd::prelude::*;

pub mod graphics;
pub mod lemmas;
pub mod math;

verus! {

} // verus!
