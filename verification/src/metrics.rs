//! Glyph and face metrics: pure value types and their native decoding.
//!
//! The native metrics query fills five integers through out-parameters and
//! reports success through a status code.  `GlyphMetrics` is the semantic
//! value; `GlyphMetrics::from_native` decides whether the filled values are
//! meaningful.  Face-level vertical metrics follow the native sign
//! convention: ascent is measured upward from the baseline and is
//! non-negative, descent is measured downward and is non-positive, and the
//! face's maximum total height spans at least from descent up to ascent.

use vstd::prelude::*;

verus! {

/// The metrics of one glyph.  A pure value type; no ownership is involved.
#[derive(Clone, Copy, Debug, PartialEq, Eq, Structural)]
pub struct GlyphMetrics {
    pub minx: i32,
    pub maxx: i32,
    pub miny: i32,
    pub maxy: i32,
    pub advance: i32,
}

impl GlyphMetrics {
    /// Decide a native glyph-metrics query: the native call fills the five
    /// values and returns `status`; the values are meaningful exactly when
    /// `status` is zero.
    pub fn from_native(
        status: i32,
        minx: i32,
        maxx: i32,
        miny: i32,
        maxy: i32,
        advance: i32,
    ) -> (r: Option<GlyphMetrics>)
        ensures
            r is Some <==> status == 0,
            r matches Some(m) ==> m == (GlyphMetrics { minx, maxx, miny, maxy, advance }),
    {
        if status != 0 {
            None
        } else {
            Some(GlyphMetrics { minx, maxx, miny, maxy, advance })
        }
    }
}

/// The native sign convention for a face's vertical metrics: ascent extends
/// upward from the baseline (non-negative), descent extends downward
/// (non-positive), and the maximum total height covers at least the span
/// from descent to ascent.
pub open spec fn vertical_metrics_consistent_spec(height: int, ascent: int, descent: int) -> bool {
    &&& ascent >= 0
    &&& descent <= 0
    &&& height >= ascent - descent
}

/// Check a face's vertical metrics against the native sign convention.
pub fn vertical_metrics_consistent(height: i32, ascent: i32, descent: i32) -> (r: bool)
    ensures
        r == vertical_metrics_consistent_spec(height as int, ascent as int, descent as int),
{
    ascent >= 0 && descent <= 0 && (height as i64) >= (ascent as i64) - (descent as i64)
}

} // verus!
