use vstd::prelude::*;

use crate::align::{aligned_buffer, aligned_color, splat_source, Footprint};
use crate::point_cloud::depth_valid;

verus! {

/// A depth sample of zero marks its pixel invalid, and alignment leaves that
/// pixel's color exactly as it was.
pub proof fn lemma_zero_depth_sentinel(
    depth: Seq<u16>,
    footprints: Seq<Footprint>,
    color_width: int,
    color_height: int,
    color: Seq<[u8; 3]>,
    out: Seq<[u8; 3]>,
    i: int,
)
    requires
        footprints.len() == depth.len(),
        out.len() == depth.len(),
        0 <= i < depth.len(),
        depth[i] == 0,
    ensures
        depth_valid(depth)[i] == false,
        aligned_buffer(depth, footprints, color_width, color_height, color, out)[i] == out[i],
{
}

/// A footprint that lies entirely outside the color image writes nothing:
/// the aligned color of its pixel is what the output held before.
pub proof fn lemma_outside_footprint_untouched(
    depth: u16,
    f: Footprint,
    color_width: int,
    color_height: int,
    color: Seq<[u8; 3]>,
    prior: [u8; 3],
)
    requires
        f.x1 < 0 || f.y1 < 0 || f.x0 >= color_width || f.y0 >= color_height,
    ensures
        aligned_color(depth, f, color_width, color_height, color, prior) == prior,
{
}

/// Whatever a footprint holds, the color sample it leaves behind lies inside
/// the color image.
pub proof fn lemma_splat_source_in_image(f: Footprint, color_width: int, color_height: int)
    ensures
        splat_source(f, color_width, color_height) matches Some(k) ==> 0 <= k < color_width
            * color_height,
{
    if let Some(k) = splat_source(f, color_width, color_height) {
        assert(0 <= f.y1 * color_width + f.x1 < color_width * color_height) by (nonlinear_arith)
            requires
                0 <= f.x0 <= f.x1 < color_width,
                0 <= f.y0 <= f.y1 < color_height,
        ;
    }
}

} // verus!
