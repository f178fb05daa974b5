use physarum::sensor::calculate_pixel_list;

#[test]
fn pixel_radius_0() {
    let radius = 0;

    let pixel_list = calculate_pixel_list(radius);
    let target_pixel_list = vec![(0, 0)];

    assert_eq!(pixel_list, target_pixel_list);
}

#[test]
fn pixel_radius_1() {
    let radius = 1;

    let pixel_list = calculate_pixel_list(radius);
    let target_pixel_list = vec![
        (0, 0), (-1, -1), (0, -1), (1, -1), (-1, 0), (1, 0), (-1, 1), (0, 1), (1, 1),
    ];

    assert_eq!(pixel_list, target_pixel_list);
}

#[test]
fn pixel_radius_2() {
    let radius = 2;

    let pixel_list = calculate_pixel_list(radius);
    let target_pixel_list = vec![
        (0, 0), (-2, -2), (-1, -2), (0, -2), (1, -2), (2, -2), (-2, -1), (-1, -1), (0, -1), (1, -1), (2, -1),
        (-2, 0), (-1, 0), (1, 0), (2, 0), (-2, 1), (-1, 1), (0, 1), (1, 1), (2, 1), (-2, 2), (-1, 2), (0, 2),
        (1, 2), (2, 2),
    ];

    assert_eq!(pixel_list, target_pixel_list);
}

#[test]
fn pixel_list_negative_radius_is_centre_only() {
    assert_eq!(calculate_pixel_list(-3), vec![(0, 0)]);
}

#[test]
fn pixel_list_holds_the_whole_square() {
    for radius in 0..6 {
        let list = calculate_pixel_list(radius);
        let side = (2 * radius + 1) as usize;
        assert_eq!(list.len(), side * side);
    }
}
