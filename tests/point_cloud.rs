use deproject::point_cloud::{build_point_cloud, pixel_coords, valid_mask};
use deproject::{ImagePointCloud, KernelError};
use glam::Vec3;

fn positions(n: usize) -> Vec<Vec3> {
    (0..n).map(|i| Vec3::new(i as f32, 0.0, 1.0)).collect()
}

#[test]
fn new_accepts_whole_rows() {
    let cloud = ImagePointCloud::new(
        vec![true, false, true, true, false, false],
        positions(6),
        vec![[1, 2, 3]; 6],
        3,
    )
    .unwrap();
    assert_eq!(cloud.width(), 3);
    assert_eq!(cloud.height(), 2);
    assert_eq!(cloud.valid(), &[true, false, true, true, false, false]);
    assert_eq!(cloud.color().len(), 6);
    assert_eq!(cloud.position()[4], Vec3::new(4.0, 0.0, 1.0));
}

#[test]
fn new_rejects_position_length_mismatch() {
    let r = ImagePointCloud::new(vec![true, true], positions(3), vec![[0; 3]; 2], 1);
    assert_eq!(r.err(), Some(KernelError::ShapeViolation));
}

#[test]
fn new_rejects_color_length_mismatch() {
    let r = ImagePointCloud::new(vec![true, true], positions(2), vec![[0; 3]; 1], 1);
    assert_eq!(r.err(), Some(KernelError::ShapeViolation));
}

#[test]
fn new_rejects_partial_row() {
    let r = ImagePointCloud::new(vec![true; 5], positions(5), vec![[0; 3]; 5], 2);
    assert_eq!(r.err(), Some(KernelError::ShapeViolation));
}

#[test]
fn new_rejects_zero_width() {
    let r = ImagePointCloud::new(vec![], vec![], vec![], 0);
    assert_eq!(r.err(), Some(KernelError::ShapeViolation));
}

#[test]
fn new_accepts_empty_cloud() {
    let cloud = ImagePointCloud::new(vec![], vec![], vec![], 4).unwrap();
    assert_eq!(cloud.height(), 0);
    assert!(cloud.iter_pixels().is_empty());
}

#[test]
fn iter_pixels_hides_invalid_pixels() {
    let cloud = ImagePointCloud::new(
        vec![true, false, true, false],
        positions(4),
        vec![[10, 0, 0], [20, 0, 0], [30, 0, 0], [40, 0, 0]],
        2,
    )
    .unwrap();
    let samples = cloud.iter_pixels();
    assert_eq!(samples.len(), 4);
    assert_eq!(samples[0], Some((Vec3::new(0.0, 0.0, 1.0), [10, 0, 0])));
    assert_eq!(samples[1], None);
    assert_eq!(samples[2], Some((Vec3::new(2.0, 0.0, 1.0), [30, 0, 0])));
    assert_eq!(samples[3], None);
}

#[test]
fn valid_mask_marks_zero_depth_invalid() {
    assert_eq!(valid_mask(&vec![0, 5, 0, 65535]), vec![false, true, false, true]);
    assert!(valid_mask(&vec![]).is_empty());
}

#[test]
fn pixel_coords_in_raster_order() {
    assert_eq!(pixel_coords(0, 4), (0, 0));
    assert_eq!(pixel_coords(3, 4), (3, 0));
    assert_eq!(pixel_coords(4, 4), (0, 1));
    assert_eq!(pixel_coords(11, 4), (3, 2));
}

#[test]
fn build_point_cloud_derives_validity_from_depth() {
    let cloud = build_point_cloud(&vec![7, 0, 9, 0], vec![[1, 1, 1]; 4], positions(4), 2).unwrap();
    assert_eq!(cloud.valid(), &[true, false, true, false]);
    assert_eq!(cloud.color(), &[[1, 1, 1]; 4]);
    assert_eq!(cloud.width(), 2);
    assert_eq!(cloud.height(), 2);
}

#[test]
fn build_point_cloud_rejects_bad_shape() {
    let r = build_point_cloud(&vec![7, 0, 9], vec![[1, 1, 1]; 3], positions(3), 2);
    assert_eq!(r.err(), Some(KernelError::ShapeViolation));
    let r = build_point_cloud(&vec![7, 0], vec![[1, 1, 1]; 2], positions(1), 1);
    assert_eq!(r.err(), Some(KernelError::ShapeViolation));
}
