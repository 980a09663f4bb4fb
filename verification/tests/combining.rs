use taintoooor::combiner::{
    alternate_pixels, get_smaller_dimensions, set_rgba, Args, FloatingImage, ImageDataErrors,
};

#[test]
fn args_bundle_the_three_paths() {
    let args = Args::new("a.png".to_string(), "b.png".to_string(), "out.png".to_string());
    assert_eq!(args.image_1, "a.png");
    assert_eq!(args.image_2, "b.png");
    assert_eq!(args.output, "out.png");
}

#[test]
fn buffers_larger_than_capacity_are_refused() {
    let mut img = FloatingImage::new(1, 1, "out.png".to_string());
    let too_big = vec![0u8; 5];
    assert_eq!(img.set_data(too_big), Err(ImageDataErrors::BufferTooSmall));
    let fits = vec![1, 2, 3, 4];
    assert_eq!(img.set_data(fits), Ok(()));
    assert_eq!(img.data, vec![1, 2, 3, 4]);
}

#[test]
fn despite_its_name_the_larger_dimensions_win() {
    assert_eq!(get_smaller_dimensions((2, 3), (4, 5)), (4, 5));
    assert_eq!(get_smaller_dimensions((10, 10), (4, 5)), (10, 10));
    assert_eq!(get_smaller_dimensions((2, 2), (4, 1)), (4, 1));
}

#[test]
fn set_rgba_copies_one_pixel() {
    let buffer = vec![9u8, 8, 7, 6, 5, 4, 3, 2];
    assert_eq!(set_rgba(&buffer, 0, 3), vec![9, 8, 7, 6]);
    assert_eq!(set_rgba(&buffer, 4, 7), vec![5, 4, 3, 2]);
}

#[test]
fn pixels_alternate_every_four_bytes() {
    let first = vec![1u8; 16];
    let second = vec![2u8; 16];
    let combined = alternate_pixels(first, second);
    assert_eq!(
        combined,
        vec![1, 1, 1, 1, 2, 2, 2, 2, 1, 1, 1, 1, 2, 2, 2, 2]
    );
}

#[test]
fn a_longer_second_buffer_is_cut_to_the_first() {
    let first = vec![1u8; 8];
    let second = vec![2u8; 12];
    let combined = alternate_pixels(first, second);
    assert_eq!(combined, vec![1, 1, 1, 1, 2, 2, 2, 2]);
}
