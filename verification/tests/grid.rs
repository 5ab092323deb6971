//! Grid coordinates: from a point of the plane to a cell and back to the
//! cell's center. The plane positions are floats at the boundary; the cell
//! arithmetic underneath is exact.

use bevy_toolbox::grid::GridCoord;

fn as_grid_coord(v: (f32, f32), grid_size: u32) -> GridCoord {
    GridCoord::from_signed_axes(
        v.0.abs() as u32,
        v.0.signum() as i32,
        v.1.abs() as u32,
        v.1.signum() as i32,
        grid_size,
    )
}

fn translation(coord: &GridCoord, grid_size: u32) -> (f32, f32) {
    let doubled = coord.translation(grid_size);
    (doubled.0 as f32 / 2.0, doubled.1 as f32 / 2.0)
}

#[test]
fn find_grid_coord() {
    let grid_size: u32 = 10;

    let tests: [((f32, f32), (f32, f32)); 9] = [
        ((27.0, 41.4), (25.0, 45.0)),
        ((-27.0, 41.4), (-25.0, 45.0)),
        ((-27.0, -41.4), (-25.0, -45.0)),
        ((27.0, -41.4), (25.0, -45.0)),
        ((0.0, 0.0), (5.0, 5.0)),
        ((0.001, 0.0), (5.0, 5.0)),
        ((-0.001, 0.0), (-5.0, 5.0)),
        ((-0.001, -0.001), (-5.0, -5.0)),
        ((0.001, -0.001), (5.0, -5.0)),
    ];

    for (point, grid_translation) in tests {
        let grid_coord = as_grid_coord(point, grid_size);
        let grid_translation_found = translation(&grid_coord, grid_size);

        println!("{:?}", grid_coord);
        assert_eq!(grid_translation_found, grid_translation);
    }
}

#[test]
fn odd_grid_size_center_is_exact_in_half_units() {
    // cell 0 of a 5-pixel grid has its center at 2.5: 5 half-units
    let coord = GridCoord::from_signed_axes(3, 1, 0, -1, 5);
    assert_eq!(coord.translation(5), (5, -5));
}

#[test]
fn translation_scales_with_cell_index() {
    let coord = GridCoord::from_signed_axes(250, 1, 35, -1, 100);
    // 250 lies in cell 2: center 250.0 -> doubled 500; 35 in cell 0: 50.0
    assert_eq!(coord.translation(100), (500, -100));
}
