use pyellispeed::{rasterize, rasterize_checked, validate, GridShape, RasterError, VoxelVolume};

fn ellipsoid_axis_aligned(
    center: [f64; 3],
    radii: [f64; 3],
) -> impl Fn(usize, usize, usize) -> bool {
    move |z: usize, y: usize, x: usize| {
        let lx = x as f64 - center[0];
        let ly = y as f64 - center[1];
        let lz = z as f64 - center[2];
        let f = lx * lx / (radii[0] * radii[0])
            + ly * ly / (radii[1] * radii[1])
            + lz * lz / (radii[2] * radii[2]);
        f <= 1.0
    }
}

fn probe_volume() -> VoxelVolume {
    rasterize_checked(
        [100, 100, 100],
        [true, true, true],
        ellipsoid_axis_aligned([50., 50., 50.], [5., 10., 30.]),
    )
    .unwrap()
}

#[test]
fn axis_extent_probes() {
    let image = probe_volume();
    assert_eq!(image.shape().dims(), [100, 100, 100]);
    assert_ne!(image.count_inside(), 0);

    assert_eq!(image.get(20, 50, 50), true);
    assert_eq!(image.get(80, 50, 50), true);
    assert_eq!(image.get(50, 40, 50), true);
    assert_eq!(image.get(50, 60, 50), true);
    assert_eq!(image.get(50, 50, 45), true);
    assert_eq!(image.get(50, 50, 55), true);

    assert_eq!(image.get(50, 50, 56), false);
    assert_eq!(image.get(50, 49, 55), false);
    assert_eq!(image.get(50, 51, 55), false);
    assert_eq!(image.get(49, 50, 55), false);
    assert_eq!(image.get(51, 50, 55), false);
}

#[test]
fn repeated_rasterization_is_identical() {
    let a = probe_volume();
    let b = probe_volume();
    assert_eq!(a, b);
    assert_eq!(a.into_cells(), b.into_cells());
}

#[test]
fn shape_is_kept() {
    let v = rasterize_checked([3, 4, 5], [true, true, true], |_z: usize, _y: usize, _x: usize| false)
        .unwrap();
    assert_eq!(v.shape().dims(), [3, 4, 5]);
    assert_eq!(v.shape().depth(), 3);
    assert_eq!(v.shape().height(), 4);
    assert_eq!(v.shape().width(), 5);
    assert_eq!(v.count_inside(), 0);
    assert_eq!(v.into_cells().len(), 60);
}

#[test]
fn cells_are_row_major_z_y_x() {
    let shape = GridShape::new([2, 3, 4]).unwrap();
    let v = rasterize(shape, |z: usize, y: usize, x: usize| z == 1 && y == 2 && x == 3);
    assert_eq!(v.get(1, 2, 3), true);
    assert_eq!(v.get(0, 2, 3), false);
    assert_eq!(v.count_inside(), 1);
    let cells = v.into_cells();
    assert_eq!(cells.len(), 24);
    assert_eq!(cells[(1 * 3 + 2) * 4 + 3], true);
    assert_eq!(cells.iter().filter(|&&c| c).count(), 1);
}

#[test]
fn every_voxel_is_asked() {
    let shape = GridShape::new([2, 2, 3]).unwrap();
    let v = rasterize(shape, |z: usize, y: usize, x: usize| (z + y + x) % 2 == 0);
    let cells = v.into_cells();
    let expected = vec![
        true, false, true, false, true, false, false, true, false, true, false, true,
    ];
    assert_eq!(cells, expected);
}

#[test]
fn one_voxel_grid() {
    let v = rasterize_checked([1, 1, 1], [true, true, true], |_z: usize, _y: usize, _x: usize| true)
        .unwrap();
    assert_eq!(v.get(0, 0, 0), true);
    assert_eq!(v.count_inside(), 1);
}

#[test]
fn zero_dimension_is_rejected() {
    assert_eq!(GridShape::new([0, 4, 4]), Err(RasterError::InvalidShape));
    assert_eq!(GridShape::new([4, 0, 4]), Err(RasterError::InvalidShape));
    assert_eq!(GridShape::new([4, 4, 0]), Err(RasterError::InvalidShape));
    let r = rasterize_checked([4, 0, 4], [true, true, true], |_z: usize, _y: usize, _x: usize| true);
    assert_eq!(r, Err(RasterError::InvalidShape));
}

#[test]
fn oversized_grid_is_rejected() {
    assert_eq!(GridShape::new([usize::MAX, 2, 1]), Err(RasterError::VolumeTooLarge));
    assert_eq!(GridShape::new([1 << 40, 1 << 40, 1]), Err(RasterError::VolumeTooLarge));
    assert_eq!(GridShape::new([usize::MAX, 1, 1]).unwrap().depth(), usize::MAX);
}

#[test]
fn non_positive_radius_is_rejected() {
    assert_eq!(validate([4, 4, 4], [true, false, true]), Err(RasterError::InvalidRadius));
    assert_eq!(validate([0, 4, 4], [false, true, true]), Err(RasterError::InvalidRadius));
    let r = rasterize_checked([4, 4, 4], [true, true, false], |_z: usize, _y: usize, _x: usize| true);
    assert_eq!(r, Err(RasterError::InvalidRadius));
    assert_eq!(validate([4, 4, 4], [true, true, true]).unwrap().dims(), [4, 4, 4]);
}

#[test]
fn count_matches_cells() {
    let shape = GridShape::new([3, 3, 3]).unwrap();
    let v = rasterize(shape, |z: usize, _y: usize, x: usize| z == x);
    assert_eq!(v.count_inside(), 9);
}
