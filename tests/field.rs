use physarum::trail::{Trail, TrailMap};

fn field_with(width: usize, height: usize, cells: &[(usize, usize, Trail)]) -> TrailMap {
    let mut m = TrailMap::new(width, height);
    for &(x, y, t) in cells {
        m.deposit(x, y, t);
    }
    m
}

fn cell(m: &TrailMap, x: usize, y: usize) -> Trail {
    m.cells[y * m.width + x]
}

#[test]
fn get_clamps_coordinates_into_the_grid() {
    let m = field_with(3, 2, &[(0, 0, Trail::new(1, 2, 3)), (2, 1, Trail::new(9, 8, 7))]);
    assert_eq!(m.get(-5, -5), Trail::new(1, 2, 3));
    assert_eq!(m.get(10, 10), Trail::new(9, 8, 7));
    assert_eq!(m.get(2, 7), Trail::new(9, 8, 7));
    assert_eq!(m.get(1, 0), Trail::new(0, 0, 0));
}

#[test]
fn deposit_overwrites_rather_than_accumulates() {
    let mut m = TrailMap::new(4, 4);
    m.deposit(1, 2, Trail::new(200, 10, 0));
    m.deposit(1, 2, Trail::new(5, 5, 5));
    assert_eq!(cell(&m, 1, 2), Trail::new(5, 5, 5));
}

#[test]
fn evaporation_is_linear_without_diffusion() {
    let mut m = field_with(3, 3, &[(1, 1, Trail::new(200, 200, 200))]);
    for n in 1..=25u32 {
        m.evolve(0, 10);
        let expected = if 200 > 10 * n as i64 { (200 - 10 * n) as u8 } else { 0 };
        assert_eq!(cell(&m, 1, 1), Trail::new(expected, expected, expected));
    }
    assert_eq!(cell(&m, 1, 1), Trail::new(0, 0, 0));
}

#[test]
fn evaporation_floors_at_zero() {
    let mut m = field_with(1, 1, &[(0, 0, Trail::new(7, 0, 255))]);
    m.evolve(0, 10);
    assert_eq!(cell(&m, 0, 0), Trail::new(0, 0, 245));
}

#[test]
fn full_diffusion_takes_the_neighbourhood_mean() {
    // A single bright cell in the middle of a 3x3 field: every cell's
    // clamped neighbourhood holds it exactly once, so each becomes 90 / 9.
    let mut m = field_with(3, 3, &[(1, 1, Trail::new(90, 0, 9))]);
    m.evolve(100, 0);
    for y in 0..3 {
        for x in 0..3 {
            assert_eq!(cell(&m, x, y), Trail::new(10, 0, 1));
        }
    }
}

#[test]
fn half_diffusion_blends_own_value_and_mean() {
    let mut m = field_with(3, 3, &[(1, 1, Trail::new(90, 0, 0))]);
    m.evolve(50, 1);
    // centre: (90 * 50 + 10 * 50) / 100 - 1
    assert_eq!(cell(&m, 1, 1), Trail::new(49, 0, 0));
    // a corner: (0 * 50 + 10 * 50) / 100 - 1
    assert_eq!(cell(&m, 0, 0), Trail::new(4, 0, 0));
}

#[test]
fn diffusion_is_symmetric_and_stays_in_range() {
    let mut m = field_with(5, 5, &[(2, 2, Trail::new(255, 255, 255))]);
    for _ in 0..4 {
        m.evolve(100, 0);
    }
    for y in 0..5 {
        for x in 0..5 {
            assert_eq!(cell(&m, x, y), cell(&m, 4 - x, y));
            assert_eq!(cell(&m, x, y), cell(&m, x, 4 - y));
            assert_eq!(cell(&m, x, y), cell(&m, y, x));
            assert!(cell(&m, x, y).r <= 255);
        }
    }
    // the bright cell never gets brighter than it started
    assert!(cell(&m, 2, 2).r < 255);
}

#[test]
fn clear_zeroes_every_cell() {
    let mut m = field_with(2, 2, &[(0, 1, Trail::new(3, 3, 3))]);
    m.clear();
    assert!(m.cells.iter().all(|t| *t == Trail::new(0, 0, 0)));
}

#[test]
fn pixels_are_rgba_row_major() {
    let m = field_with(2, 2, &[(1, 0, Trail::new(1, 2, 3)), (0, 1, Trail::new(4, 5, 6))]);
    let p = m.pixels();
    assert_eq!(p.len(), 16);
    assert_eq!(&p[0..4], &[0, 0, 0, 255]);
    assert_eq!(&p[4..8], &[1, 2, 3, 255]);
    assert_eq!(&p[8..12], &[4, 5, 6, 255]);
}

#[test]
fn square_weight_sums_clamped_cells() {
    let m = field_with(3, 3, &[(0, 0, Trail::new(1, 1, 1)), (2, 2, Trail::new(100, 0, 0))]);
    // centred far outside the top-left corner: all nine samples clamp to (0, 0)
    assert_eq!(m.square_weight(-50, -50, 1), 27);
    // centred on the middle: the whole field once
    assert_eq!(m.square_weight(1, 1, 1), 103);
    // half-width 0 reads the centre cell alone
    assert_eq!(m.square_weight(2, 2, 0), 100);
    // half-width 2 around (0, 0): rows and columns -2..=2 clamp to 0..=2,
    // so (0, 0) is read 9 times, (2, 2) once
    assert_eq!(m.square_weight(0, 0, 2), 9 * 3 + 100);
}

#[test]
fn a_wide_sensor_is_summed_without_limit() {
    let m = field_with(2, 2, &[(1, 1, Trail::new(255, 255, 255))]);
    // half-width 1500: (2 * 1500 + 1)^2 samples; the cell (1, 1) is what
    // every sample with x >= 1 and y >= 1 clamps to: 1500 * 1500 of them
    assert_eq!(m.square_weight(0, 0, 1500), 1500u128 * 1500 * 765);
}

#[test]
fn copy_from_duplicates_a_field() {
    let src = field_with(2, 3, &[(1, 2, Trail::new(7, 8, 9))]);
    let mut dst = TrailMap::new(1, 1);
    dst.copy_from(&src);
    assert_eq!(dst.width, 2);
    assert_eq!(dst.height, 3);
    assert_eq!(dst.cells, src.cells);
}
