use vstd::prelude::*;

use glam::Vec3;

use crate::align::{align_images, aligned_buffer, Footprint};
use crate::error::KernelError;
use crate::point_cloud::{build_point_cloud, depth_valid, shape_ok, ImagePointCloud};

verus! {

/// The color an aligned pixel has when nothing was copied into it.
pub const BLANK_COLOR: [u8; 3] = [0, 0, 0];

/// An aligned color buffer before alignment: every pixel blank.
pub open spec fn blank_colors(n: nat) -> Seq<[u8; 3]> {
    Seq::new(n, |i: int| BLANK_COLOR)
}

/// Whether the buffers of one frame fit together: a footprint per depth
/// sample, a color image of the stated size, a position per depth sample, and
/// whole rows of `width` pixels.
pub open spec fn frame_shape_ok(
    n_depth: nat,
    n_footprints: nat,
    n_color: nat,
    color_width: nat,
    color_height: nat,
    n_position: nat,
    width: nat,
) -> bool {
    &&& n_footprints == n_depth
    &&& n_color == color_width * color_height
    &&& shape_ok(n_depth, n_position, n_depth, width)
}

/// Turns one captured frame into a point cloud: aligns the color image to the
/// depth image over a blank buffer, then marks each pixel valid where its
/// depth is nonzero. `footprints[i]` is where depth pixel `i` lands in the
/// color image and `position[i]` its deprojected 3D position.
pub fn process_frame(
    depth: &Vec<u16>,
    footprints: &Vec<Footprint>,
    color: &Vec<[u8; 3]>,
    color_width: usize,
    color_height: usize,
    position: Vec<Vec3>,
    width: usize,
) -> (r: Result<ImagePointCloud, KernelError>)
    ensures
        r is Ok <==> frame_shape_ok(
            depth@.len(),
            footprints@.len(),
            color@.len(),
            color_width as nat,
            color_height as nat,
            position@.len(),
            width as nat,
        ),
        r is Err ==> r == Err::<ImagePointCloud, KernelError>(KernelError::ShapeViolation),
        r matches Ok(c) ==> {
            &&& c.valid_seq() == depth_valid(depth@)
            &&& c.position_seq() == position@
            &&& c.color_seq() == aligned_buffer(
                depth@,
                footprints@,
                color_width as int,
                color_height as int,
                color@,
                blank_colors(depth@.len()),
            )
            &&& c.width_spec() == width
        },
{
    if footprints.len() != depth.len() || color_width.checked_mul(color_height) != Some(
        color.len(),
    ) {
        return Err(KernelError::ShapeViolation);
    }
    let n = depth.len();
    let mut out: Vec<[u8; 3]> = Vec::with_capacity(n);
    let mut i: usize = 0;
    while i < n
        invariant
            i <= n,
            out@ =~= blank_colors(i as nat),
        decreases n - i,
    {
        out.push(BLANK_COLOR);
        i += 1;
    }
    align_images(footprints, color_width, color_height, depth, color, &mut out);
    build_point_cloud(depth, out, position, width)
}

} // verus!
