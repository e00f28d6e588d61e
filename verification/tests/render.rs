use raytracing::{flip_vertical, get_image_coordinates};

#[test]
fn test_get_image_coordinates() {
    let width = 20;

    assert_eq!(get_image_coordinates(0, width,), (0, 0));
    assert_eq!(get_image_coordinates(24, width,), (4, 1));
    assert_eq!(get_image_coordinates(99, width,), (19, 4));
    assert_eq!(get_image_coordinates(100, width,), (0, 5));
    assert_eq!(get_image_coordinates(199, width,), (19, 9));
}

#[test]
fn test_get_image_coordinates_roundtrip() {
    let width = 7;
    for i in 0..100u32 {
        let (x, y) = get_image_coordinates(i, width);
        assert_eq!(y * width + x, i);
    }
}

#[test]
fn test_flip_vertical_two_rows() {
    // Two rows of two pixels; row 0 sits at the bottom of the image.
    let bottom_left = (1, 2, 3);
    let bottom_right = (4, 5, 6);
    let top_left = (7, 8, 9);
    let top_right = (10, 11, 12);
    let pixels = vec![bottom_left, bottom_right, top_left, top_right];

    let flipped = flip_vertical(2, 2, &pixels);

    assert_eq!(flipped, vec![top_left, top_right, bottom_left, bottom_right]);
}

#[test]
fn test_flip_vertical_single_row_unchanged() {
    let pixels = vec![(1, 1, 1), (2, 2, 2), (3, 3, 3)];
    let flipped = flip_vertical(3, 1, &pixels);
    assert_eq!(flipped, pixels);
}

#[test]
fn test_flip_vertical_twice_restores() {
    let pixels: Vec<(u8, u8, u8)> = (0..24u8).map(|i| (i, i, i)).collect();
    let once = flip_vertical(4, 6, &pixels);
    let twice = flip_vertical(4, 6, &once);
    assert_eq!(twice, pixels);
}

#[test]
fn test_flip_vertical_empty_height() {
    let pixels: Vec<(u8, u8, u8)> = Vec::new();
    let flipped = flip_vertical(3, 0, &pixels);
    assert!(flipped.is_empty());
}
