use mandelbrot::image::{dimensions_valid, pixel_coordinates};

#[test]
fn two_by_one_enumerates_x_first() {
    let coords = pixel_coordinates(2, 1);
    assert_eq!(coords, vec![(0, 0), (1, 0)]);
}

#[test]
fn enumeration_is_row_major() {
    let coords = pixel_coordinates(3, 2);
    assert_eq!(coords, vec![(0, 0), (1, 0), (2, 0), (0, 1), (1, 1), (2, 1)]);
}

#[test]
fn enumeration_covers_every_pixel_once() {
    let width = 7;
    let height = 5;
    let coords = pixel_coordinates(width, height);
    assert_eq!(coords.len(), width * height);
    for (k, &(x, y)) in coords.iter().enumerate() {
        assert_eq!(x, k % width);
        assert_eq!(y, k / width);
    }
}

#[test]
fn single_pixel_grid() {
    assert_eq!(pixel_coordinates(1, 1), vec![(0, 0)]);
}

#[test]
fn valid_dimensions_accepted() {
    assert!(dimensions_valid(1, 1, 1));
    assert!(dimensions_valid(1000, 1000, 1000));
}

#[test]
fn zero_dimension_or_budget_rejected() {
    assert!(!dimensions_valid(0, 10, 10));
    assert!(!dimensions_valid(10, 0, 10));
    assert!(!dimensions_valid(10, 10, 0));
}

#[test]
fn oversized_pixel_count_rejected() {
    assert!(!dimensions_valid(usize::MAX, 2, 1));
    assert!(dimensions_valid(usize::MAX, 1, 1));
}
