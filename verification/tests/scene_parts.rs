use raytracing::axis::{axis_from_index, Axis};
use raytracing::bvh::{bvh_split, BvhSplit};
use raytracing::image_texture::Image;
use raytracing::integrator::{decide_trace, TraceOutcome};

#[test]
fn test_axis_from_index() {
    assert_eq!(axis_from_index(0), Axis::X);
    assert_eq!(axis_from_index(1), Axis::Y);
    assert_eq!(axis_from_index(2), Axis::Z);
}

#[test]
fn test_image_pixel_lookup() {
    // A 2x2 bitmap, rows top to bottom.
    let data = vec![
        10, 11, 12, 20, 21, 22, // row 0
        30, 31, 32, 40, 41, 42, // row 1
    ];
    let image = Image::new(2, 2, data);

    assert_eq!(image.width(), 2);
    assert_eq!(image.height(), 2);
    assert_eq!(image.pixel(0, 0), (10, 11, 12));
    assert_eq!(image.pixel(1, 0), (20, 21, 22));
    assert_eq!(image.pixel(0, 1), (30, 31, 32));
    assert_eq!(image.pixel(1, 1), (40, 41, 42));
}

#[test]
fn test_trace_terminates_at_depth_zero() {
    // Whatever the scene reported, a spent depth budget ends the path.
    assert_eq!(decide_trace(0, true, true), TraceOutcome::Terminate);
    assert_eq!(decide_trace(0, true, false), TraceOutcome::Terminate);
    assert_eq!(decide_trace(0, false, false), TraceOutcome::Terminate);
}

#[test]
fn test_trace_branches() {
    assert_eq!(decide_trace(5, false, false), TraceOutcome::Background);
    assert_eq!(decide_trace(5, true, false), TraceOutcome::EmissionOnly);
    assert_eq!(decide_trace(5, true, true), TraceOutcome::Scatter);
}

#[test]
fn test_bvh_split_plan() {
    assert_eq!(bvh_split(1), BvhSplit::Single);
    assert_eq!(bvh_split(2), BvhSplit::Pair);
    assert_eq!(bvh_split(3), BvhSplit::Split(1));
    assert_eq!(bvh_split(7), BvhSplit::Split(3));
    assert_eq!(bvh_split(1000), BvhSplit::Split(500));
}
