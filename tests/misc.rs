use deproject::distortion::{BROWN_CONRADY_ITERATIONS, KANNALA_BRANDT_ITERATIONS};
use deproject::grid::{DEFAULT_GRID_DIVISION, DEFAULT_GRID_SIZE};
use deproject::{
    check_deprojectable, default_grid, grid, subdivision_resolution, subdivs_to_cover, DistortionKind, GridVertex,
    KernelError, RecorderConfig, RenderMsg,
};

fn gv(u: i32, v: i32, major: bool) -> GridVertex {
    GridVertex { u, v, major }
}

#[test]
fn deprojection_refuses_only_modified_brown_conrady() {
    assert_eq!(
        check_deprojectable(DistortionKind::BrownConradyModified),
        Err(KernelError::UnsupportedOperation)
    );
    for kind in [
        DistortionKind::NoDistortion,
        DistortionKind::BrownConrady,
        DistortionKind::BrownConradyInverse,
        DistortionKind::FThetaFisheye,
        DistortionKind::KannalaBrandt,
    ] {
        assert_eq!(check_deprojectable(kind), Ok(()));
    }
}

#[test]
fn solver_iteration_budgets() {
    assert_eq!(BROWN_CONRADY_ITERATIONS, 10);
    assert_eq!(KANNALA_BRANDT_ITERATIONS, 4);
}

#[test]
fn small_grid_vertices() {
    let g = grid(1, 1);
    assert_eq!(g.len(), 24);
    // Offset -1, steps -1 and 0.
    assert_eq!(&g[0..4], &[gv(0, -1, true), gv(-1, -1, true), gv(-1, 0, true), gv(-1, -1, true)]);
    assert_eq!(&g[4..8], &[gv(1, -1, true), gv(0, -1, true), gv(-1, 1, true), gv(-1, 0, true)]);
    // Offset 1, step 0 comes last.
    assert_eq!(&g[20..24], &[gv(1, 1, true), gv(0, 1, true), gv(1, 1, true), gv(1, 0, true)]);
}

#[test]
fn grid_marks_major_lines() {
    let g = grid(2, 2);
    // Offsets -2..=2, one step each way, four vertices per step.
    assert_eq!(g.len(), 5 * 2 * 4);
    let majors: Vec<bool> = g.chunks(8).map(|row| row[0].major).collect();
    assert_eq!(majors, vec![true, false, true, false, true]);
    assert_eq!(&g[8..12], &[gv(0, -1, false), gv(-2, -1, false), gv(-1, 0, false), gv(-1, -2, false)]);
}

#[test]
fn degenerate_grids_are_empty() {
    assert!(grid(-3, 2).is_empty());
    assert!(grid(5, 0).is_empty());
    assert!(grid(5, -1).is_empty());
    // A division wider than the grid leaves no step.
    assert!(grid(3, 4).is_empty());
    assert_eq!(grid(0, 1).len(), 0);
}

#[test]
fn default_grid_size() {
    assert_eq!(DEFAULT_GRID_SIZE, 600);
    assert_eq!(DEFAULT_GRID_DIVISION, 12);
    let g = default_grid();
    assert_eq!(g.len(), 1201 * 50 * 2 * 4);
    assert_eq!(g[0], gv(-588, -600, true));
    assert_eq!(*g.last().unwrap(), gv(600, 588, true));
    assert!(g.iter().all(|v| v.u.abs() <= 600 && v.v.abs() <= 600));
}

#[test]
fn render_msg_new_is_empty() {
    let m: RenderMsg<u32> = RenderMsg::new();
    assert!(m.lines.is_empty());
    assert!(m.points.is_empty());
    let d: RenderMsg<u32> = RenderMsg::default();
    assert!(d.lines.is_empty() && d.points.is_empty());
}

#[test]
fn render_msg_append_concatenates() {
    let mut a = RenderMsg { lines: vec![1, 2], points: vec![3] };
    let b = RenderMsg { lines: vec![4], points: vec![5, 6] };
    a.append(&b);
    assert_eq!(a.lines, vec![1, 2, 4]);
    assert_eq!(a.points, vec![3, 5, 6]);
    assert_eq!(b.lines, vec![4]);
}

#[test]
fn recorder_defaults() {
    let c = RecorderConfig::default();
    assert_eq!((c.horiz_subdivs, c.vert_subdivs, c.pics_per_pattern), (11, 10, 1));
}

#[test]
fn subdivision_resolution_is_power_of_two() {
    assert_eq!(subdivision_resolution(0), 1);
    assert_eq!(subdivision_resolution(11), 2048);
    assert_eq!(subdivision_resolution(25), 33_554_432);
    assert_eq!(subdivision_resolution(63), 1u64 << 63);
}

#[test]
fn subdivs_cover_window_pixels() {
    assert_eq!(subdivs_to_cover(0), 0);
    assert_eq!(subdivs_to_cover(1), 0);
    assert_eq!(subdivs_to_cover(2), 1);
    assert_eq!(subdivs_to_cover(3), 2);
    assert_eq!(subdivs_to_cover(1024), 10);
    assert_eq!(subdivs_to_cover(1025), 11);
    assert_eq!(subdivs_to_cover(1920), 11);
    assert_eq!(subdivs_to_cover(1u64 << 63), 63);
    assert_eq!(subdivs_to_cover(u64::MAX), 64);
}
