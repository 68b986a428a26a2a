use vstd::prelude::*;

use glam::Vec3;

use crate::error::KernelError;

verus! {

/// Lets `glam::Vec3` stand in signatures and fields. Positions are carried
/// through unchanged: nothing in this library reads their coordinates.
#[verifier::external_type_specification]
#[verifier::external_body]
pub struct ExVec3(Vec3);

/// The sizes that make a point cloud well shaped: one validity flag, one
/// position and one color per pixel, in whole rows of `width` pixels.
pub open spec fn shape_ok(n_valid: nat, n_position: nat, n_color: nat, width: nat) -> bool {
    &&& n_valid == n_position
    &&& n_valid == n_color
    &&& width > 0
    &&& n_valid % width == 0
}

/// The sample that pixel `i` yields: its position and color where it is valid.
pub open spec fn pixel_sample(
    valid: Seq<bool>,
    position: Seq<Vec3>,
    color: Seq<[u8; 3]>,
    i: int,
) -> Option<(Vec3, [u8; 3])> {
    if valid[i] {
        Some((position[i], color[i]))
    } else {
        None
    }
}

/// Validity of each pixel: zero depth is the "no measurement" sentinel.
pub open spec fn depth_valid(depth: Seq<u16>) -> Seq<bool> {
    depth.map_values(|d: u16| d != 0)
}

/// One captured frame as a grid of pixels, each with a validity flag, a 3D
/// position relative to the camera and an RGB color. Position and color are
/// only meaningful where the pixel is valid.
pub struct ImagePointCloud {
    valid: Vec<bool>,
    position: Vec<Vec3>,
    color: Vec<[u8; 3]>,
    width: usize,
}

impl ImagePointCloud {
    #[verifier::type_invariant]
    spec fn shaped(self) -> bool {
        shape_ok(self.valid@.len(), self.position@.len(), self.color@.len(), self.width as nat)
    }

    /// Per-pixel validity, in raster order.
    pub closed spec fn valid_seq(self) -> Seq<bool> {
        self.valid@
    }

    /// Per-pixel position, in raster order.
    pub closed spec fn position_seq(self) -> Seq<Vec3> {
        self.position@
    }

    /// Per-pixel color, in raster order.
    pub closed spec fn color_seq(self) -> Seq<[u8; 3]> {
        self.color@
    }

    /// Width of the frame in pixels.
    pub closed spec fn width_spec(self) -> nat {
        self.width as nat
    }

    /// Assembles a point cloud, refusing buffers whose lengths disagree or
    /// that do not form whole rows of `width` pixels.
    pub fn new(valid: Vec<bool>, position: Vec<Vec3>, color: Vec<[u8; 3]>, width: usize) -> (r:
        Result<Self, KernelError>)
        ensures
            r is Ok <==> shape_ok(valid@.len(), position@.len(), color@.len(), width as nat),
            r is Err ==> r == Err::<Self, KernelError>(KernelError::ShapeViolation),
            r matches Ok(c) ==> {
                &&& c.valid_seq() == valid@
                &&& c.position_seq() == position@
                &&& c.color_seq() == color@
                &&& c.width_spec() == width
            },
    {
        if valid.len() != position.len() || valid.len() != color.len() || width == 0
            || valid.len() % width != 0 {
            return Err(KernelError::ShapeViolation);
        }
        Ok(ImagePointCloud { valid, position, color, width })
    }

    /// Returns a sample for each pixel, in raster order: `None` where the
    /// pixel is not valid.
    pub fn iter_pixels(&self) -> (r: Vec<Option<(Vec3, [u8; 3])>>)
        ensures
            r@.len() == self.valid_seq().len(),
            forall|i: int|
                0 <= i < r@.len() ==> #[trigger] r@[i] == pixel_sample(
                    self.valid_seq(),
                    self.position_seq(),
                    self.color_seq(),
                    i,
                ),
    {
        proof {
            use_type_invariant(self);
        }
        let n = self.valid.len();
        let mut r: Vec<Option<(Vec3, [u8; 3])>> = Vec::with_capacity(n);
        let mut i: usize = 0;
        while i < n
            invariant
                n == self.valid@.len(),
                n == self.position@.len(),
                n == self.color@.len(),
                i <= n,
                r@.len() == i,
                forall|k: int|
                    0 <= k < i ==> #[trigger] r@[k] == pixel_sample(
                        self.valid@,
                        self.position@,
                        self.color@,
                        k,
                    ),
            decreases n - i,
        {
            if self.valid[i] {
                r.push(Some((self.position[i], self.color[i])));
            } else {
                r.push(None);
            }
            i += 1;
        }
        r
    }

    /// Pixel dimension height.
    pub fn height(&self) -> (r: usize)
        ensures
            r == self.valid_seq().len() / self.width_spec(),
            r * self.width_spec() == self.valid_seq().len(),
    {
        proof {
            use_type_invariant(self);
            let n = self.valid@.len() as int;
            let w = self.width as int;
            vstd::arithmetic::div_mod::lemma_fundamental_div_mod(n, w);
            assert((n / w) * w == w * (n / w)) by (nonlinear_arith);
        }
        self.valid.len() / self.width
    }

    /// Pixel dimension width.
    pub fn width(&self) -> (r: usize)
        ensures
            r == self.width_spec(),
            shape_ok(
                self.valid_seq().len(),
                self.position_seq().len(),
                self.color_seq().len(),
                self.width_spec(),
            ),
    {
        proof {
            use_type_invariant(self);
        }
        self.width
    }

    /// Position data, meaningful where `valid` holds.
    pub fn position(&self) -> (r: &[Vec3])
        ensures
            r@ == self.position_seq(),
    {
        self.position.as_slice()
    }

    /// Color data, meaningful where `valid` holds.
    pub fn color(&self) -> (r: &[[u8; 3]])
        ensures
            r@ == self.color_seq(),
    {
        self.color.as_slice()
    }

    /// Whether each pixel holds measured data.
    pub fn valid(&self) -> (r: &[bool])
        ensures
            r@ == self.valid_seq(),
    {
        self.valid.as_slice()
    }
}

/// Marks each pixel valid exactly where its depth sample is nonzero.
pub fn valid_mask(depth: &Vec<u16>) -> (r: Vec<bool>)
    ensures
        r@ == depth_valid(depth@),
{
    let n = depth.len();
    let mut r: Vec<bool> = Vec::with_capacity(n);
    let mut i: usize = 0;
    while i < n
        invariant
            n == depth@.len(),
            i <= n,
            r@ =~= depth_valid(depth@).subrange(0, i as int),
        decreases n - i,
    {
        r.push(depth[i] != 0);
        i += 1;
    }
    r
}

/// Column and row of the pixel at `index` in a raster of `width` columns.
pub fn pixel_coords(index: usize, width: usize) -> (r: (usize, usize))
    requires
        width > 0,
    ensures
        r.0 == index % width,
        r.1 == index / width,
{
    (index % width, index / width)
}

/// Builds the point cloud of one frame from its depth samples, the color
/// buffer aligned to the depth image, and the deprojected position of every
/// pixel. A pixel is valid where its depth is nonzero.
pub fn build_point_cloud(
    depth: &Vec<u16>,
    aligned_color: Vec<[u8; 3]>,
    position: Vec<Vec3>,
    width: usize,
) -> (r: Result<ImagePointCloud, KernelError>)
    ensures
        r is Ok <==> shape_ok(depth@.len(), position@.len(), aligned_color@.len(), width as nat),
        r is Err ==> r == Err::<ImagePointCloud, KernelError>(KernelError::ShapeViolation),
        r matches Ok(c) ==> {
            &&& c.valid_seq() == depth_valid(depth@)
            &&& c.position_seq() == position@
            &&& c.color_seq() == aligned_color@
            &&& c.width_spec() == width
        },
{
    let valid = valid_mask(depth);
    ImagePointCloud::new(valid, position, aligned_color, width)
}

} // verus!
