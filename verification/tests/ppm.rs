use raytracing::ppm::{ppm_image, ppm_pixel_line};

#[test]
fn test_pixel_line() {
    assert_eq!(ppm_pixel_line((0, 0, 0)), "0 0 0\n");
    assert_eq!(ppm_pixel_line((255, 128, 7)), "255 128 7\n");
}

#[test]
fn test_image_stream_emits_rows_top_to_bottom() {
    // The buffer keeps row 0 at the bottom; the stream starts with the
    // top row.
    let bottom = (1, 2, 3);
    let top = (200, 100, 50);
    let pixels = vec![bottom, top];

    let stream = ppm_image(1, 2, &pixels);

    assert_eq!(stream, "P3\n1 2\n255\n200 100 50\n1 2 3\n");
}

#[test]
fn test_image_stream_header() {
    let pixels = vec![(9, 9, 9); 6];
    let stream = ppm_image(3, 2, &pixels);
    assert!(stream.starts_with("P3\n3 2\n255\n"));
    assert_eq!(stream.lines().count(), 3 + 6);
}

#[test]
fn test_image_stream_single_pixel() {
    let pixels = vec![(255, 0, 17)];
    assert_eq!(ppm_image(1, 1, &pixels), "P3\n1 1\n255\n255 0 17\n");
}
