//! A dense RGB color buffer and a per-channel averaging blend.
//!
//! A [`ColorArray`] owns a contiguous buffer of `3 * length` color
//! channels, laid out triple-major: the red, green and blue channels of
//! triple `k` sit at offsets `3k`, `3k + 1` and `3k + 2`.  Channels are
//! stored as the raw bit patterns of IEEE 754 single-precision values,
//! which is what lets the layout and the blending loop be verified while
//! the one floating-point step stays behind a single trusted function.
//!
//! [`mix`] writes the per-channel midpoint of two equal-length buffers
//! into a third.

use vstd::prelude::*;

pub mod blend;
pub mod color;

pub use color::ColorArray;
pub use color::mix;

verus! {

/// The fixed salutation the host may print on its logging channel.
pub fn greeting() -> (s: &'static str)
    ensures
        s@ == "Hello World!"@,
{
    "Hello World!"
}

} // verus!
