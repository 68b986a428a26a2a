use vstd::prelude::*;

verus! {

/// Where one depth pixel lands in the color image: the color-pixel corners
/// `(x0, y0)` and `(x1, y1)` that its top-left and bottom-right corners map
/// to, after deprojection at the measured depth, the rigid transform into the
/// color sensor's frame, projection, and rounding down of `coord + 0.5`.
#[derive(Debug, Clone, Copy, PartialEq, Eq, Structural)]
pub struct Footprint {
    pub x0: i64,
    pub y0: i64,
    pub x1: i64,
    pub y1: i64,
}

/// The bounds test that discards a footprint. The first corner is tested only
/// against the lower bounds and the second only against the upper bounds: a
/// footprint that passes may still be empty, but never reaches outside.
pub open spec fn out_of_bounds(f: Footprint, color_width: int, color_height: int) -> bool {
    f.x0 < 0 || f.y0 < 0 || f.x1 >= color_width || f.y1 >= color_height
}

/// The color pixel whose sample a footprint leaves behind. The rectangle
/// `[x0, x1] x [y0, y1]` is copied in raster order, so its bottom-right pixel
/// is written last; a discarded or empty rectangle writes nothing.
pub open spec fn splat_source(f: Footprint, color_width: int, color_height: int) -> Option<int> {
    if out_of_bounds(f, color_width, color_height) || f.x1 < f.x0 || f.y1 < f.y0 {
        None
    } else {
        Some(f.y1 * color_width + f.x1)
    }
}

/// The aligned color of one depth pixel, given its depth sample, its
/// footprint, the color image and the value the output held before.
pub open spec fn aligned_color(
    depth: u16,
    f: Footprint,
    color_width: int,
    color_height: int,
    color: Seq<[u8; 3]>,
    prior: [u8; 3],
) -> [u8; 3] {
    if depth == 0 {
        prior
    } else {
        match splat_source(f, color_width, color_height) {
            Some(k) => color[k],
            None => prior,
        }
    }
}

/// The color buffer that alignment leaves: per depth pixel, `aligned_color`
/// over what `out` held before.
pub open spec fn aligned_buffer(
    depth: Seq<u16>,
    footprints: Seq<Footprint>,
    color_width: int,
    color_height: int,
    color: Seq<[u8; 3]>,
    out: Seq<[u8; 3]>,
) -> Seq<[u8; 3]> {
    Seq::new(
        out.len(),
        |i: int| aligned_color(depth[i], footprints[i], color_width, color_height, color, out[i]),
    )
}

/// Whether a footprint survives the bounds test of `out_of_bounds`.
pub fn footprint_in_bounds(f: &Footprint, color_width: usize, color_height: usize) -> (r: bool)
    ensures
        r == !out_of_bounds(*f, color_width as int, color_height as int),
{
    !(f.x0 < 0 || f.y0 < 0 || f.x1 as i128 >= color_width as i128 || f.y1 as i128
        >= color_height as i128)
}

proof fn lemma_pixel_index(x: int, y: int, w: int, h: int)
    requires
        0 <= x < w,
        0 <= y < h,
    ensures
        0 <= y * w + x < w * h,
{
    assert(0 <= y * w) by (nonlinear_arith)
        requires
            0 <= y,
            0 <= w,
    ;
    assert(y * w + x < w * h) by (nonlinear_arith)
        requires
            0 <= x < w,
            0 <= y < h,
    ;
}

/// Copies every color sample inside footprint `f` into `out[index]`, in
/// raster order, unless the footprint fails the bounds test.
pub fn splat_footprint(
    f: &Footprint,
    color_width: usize,
    color_height: usize,
    color: &Vec<[u8; 3]>,
    out: &mut Vec<[u8; 3]>,
    index: usize,
)
    requires
        color@.len() == color_width * color_height,
        index < old(out)@.len(),
    ensures
        final(out)@ == old(out)@.update(
            index as int,
            match splat_source(*f, color_width as int, color_height as int) {
                Some(k) => color@[k],
                None => old(out)@[index as int],
            },
        ),
{
    if !footprint_in_bounds(f, color_width, color_height) {
        return;
    }
    if f.x1 < f.x0 || f.y1 < f.y0 {
        // An empty rectangle copies nothing.
        return;
    }
    let x0 = f.x0 as usize;
    let y0 = f.y0 as usize;
    let x1 = f.x1 as usize;
    let y1 = f.y1 as usize;
    let n_color = color.len();
    let ghost prior = out@[index as int];
    let mut y = y0;
    while y <= y1
        invariant
            n_color == color@.len(),
            n_color == color_width * color_height,
            x0 <= x1 < color_width,
            y0 <= y <= y1 + 1,
            y1 < color_height,
            index < out@.len(),
            out@.len() == old(out)@.len(),
            out@ =~= old(out)@.update(index as int, out@[index as int]),
            prior == old(out)@[index as int],
            out@[index as int] == (if y == y0 {
                prior
            } else {
                color@[(y - 1) * color_width + x1]
            }),
        decreases y1 + 1 - y,
    {
        let ghost row_start = out@[index as int];
        let mut x = x0;
        while x <= x1
            invariant
                n_color == color@.len(),
                n_color == color_width * color_height,
                x0 <= x <= x1 + 1,
                x1 < color_width,
                y0 <= y <= y1,
                y1 < color_height,
                index < out@.len(),
                out@.len() == old(out)@.len(),
                out@ =~= old(out)@.update(index as int, out@[index as int]),
                out@[index as int] == (if x == x0 {
                    row_start
                } else {
                    color@[y * color_width + (x - 1)]
                }),
            decreases x1 + 1 - x,
        {
            proof {
                lemma_pixel_index(x as int, y as int, color_width as int, color_height as int);
            }
            let sample = color[y * color_width + x];
            out.set(index, sample);
            x += 1;
        }
        y += 1;
    }
}

/// Aligns a color image to a depth image. For each depth pixel with a
/// measurement, the color samples under its footprint are copied into the
/// pixel's slot of `out`; pixels without depth, and pixels whose footprint
/// fails the bounds test, keep what `out` held.
pub fn align_images(
    footprints: &Vec<Footprint>,
    color_width: usize,
    color_height: usize,
    depth: &Vec<u16>,
    color: &Vec<[u8; 3]>,
    out: &mut Vec<[u8; 3]>,
)
    requires
        footprints@.len() == depth@.len(),
        old(out)@.len() == depth@.len(),
        color@.len() == color_width * color_height,
    ensures
        final(out)@ == aligned_buffer(
            depth@,
            footprints@,
            color_width as int,
            color_height as int,
            color@,
            old(out)@,
        ),
{
    let n = depth.len();
    let mut i: usize = 0;
    while i < n
        invariant
            n == depth@.len(),
            n == footprints@.len(),
            n == out@.len(),
            n == old(out)@.len(),
            color@.len() == color_width * color_height,
            i <= n,
            forall|k: int|
                0 <= k < i ==> #[trigger] out@[k] == aligned_color(
                    depth@[k],
                    footprints@[k],
                    color_width as int,
                    color_height as int,
                    color@,
                    old(out)@[k],
                ),
            forall|k: int| i <= k < n ==> #[trigger] out@[k] == old(out)@[k],
        decreases n - i,
    {
        if depth[i] != 0 {
            splat_footprint(&footprints[i], color_width, color_height, color, out, i);
        }
        i += 1;
    }
    assert(out@ =~= aligned_buffer(
        depth@,
        footprints@,
        color_width as int,
        color_height as int,
        color@,
        old(out)@,
    ));
}

} // verus!
