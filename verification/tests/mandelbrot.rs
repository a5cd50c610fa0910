use mandelbrot_core::color_bucket::ColorBucket;
use mandelbrot_core::mandelbrot::Mandelbrot;

fn ramp(n: u8) -> Vec<ColorBucket> {
    (0..n).map(|i| ColorBucket::from_rgb([i, 2 * i, 255 - i])).collect()
}

#[test]
fn color_bucket_returns_its_channels() {
    let bucket = ColorBucket::from_rgb([12, 0, 255]);
    assert_eq!(bucket.get_color(), [12, 0, 255]);
    let copy = bucket;
    assert_eq!(copy.get_color(), bucket.get_color());
}

#[test]
fn new_refuses_empty_palette() {
    assert!(Mandelbrot::new(400, Vec::new()).is_none());
}

#[test]
fn new_clamps_depth_to_one() {
    let state = Mandelbrot::new(0, ramp(2)).unwrap();
    assert_eq!(state.get_depth(), 1);
    let state = Mandelbrot::new(400, ramp(2)).unwrap();
    assert_eq!(state.get_depth(), 400);
    assert_eq!(state.palette_len(), 2);
}

#[test]
fn set_depth_never_goes_below_one() {
    let mut state = Mandelbrot::new(400, ramp(3)).unwrap();
    state.set_depth(0);
    assert_eq!(state.get_depth(), 1);
    state.set_depth(20);
    assert_eq!(state.get_depth(), 20);
    assert_eq!(state.palette_len(), 3);
}

#[test]
fn mod_depth_adds_to_depth() {
    let mut state = Mandelbrot::new(400, ramp(3)).unwrap();
    state.mod_depth(25);
    assert_eq!(state.get_depth(), 425);
    state.mod_depth(0);
    assert_eq!(state.get_depth(), 425);
}

#[test]
fn try_mod_depth_refuses_overflow() {
    let mut state = Mandelbrot::new(u32::MAX - 5, ramp(3)).unwrap();
    assert!(!state.try_mod_depth(6));
    assert_eq!(state.get_depth(), u32::MAX - 5);
    assert!(state.try_mod_depth(5));
    assert_eq!(state.get_depth(), u32::MAX);
}

#[test]
fn palette_grows_one_bucket_at_a_time() {
    let mut state = Mandelbrot::new(4, ramp(2)).unwrap();
    assert_eq!(state.missing_buckets(), 2);
    assert_eq!(state.last_bucket().get_color(), [1, 2, 254]);
    state.push_bucket(ColorBucket::from_rgb([9, 9, 9]));
    assert_eq!(state.missing_buckets(), 1);
    assert_eq!(state.last_bucket().get_color(), [9, 9, 9]);
    state.push_bucket(ColorBucket::from_rgb([8, 8, 8]));
    assert_eq!(state.missing_buckets(), 0);
    state.push_bucket(ColorBucket::from_rgb([7, 7, 7]));
    assert_eq!(state.missing_buckets(), 0);
    assert_eq!(state.palette_len(), 5);
    assert_eq!(state.get_bucket(2).unwrap().get_color(), [9, 9, 9]);
    assert!(state.get_bucket(5).is_none());
}

#[test]
fn set_palette_replaces_the_whole_palette() {
    let mut state = Mandelbrot::new(4, ramp(2)).unwrap();
    assert!(state.set_palette(vec![ColorBucket::from_rgb([5, 6, 7])]));
    assert_eq!(state.palette_len(), 1);
    assert_eq!(state.get_bucket(0).unwrap().get_color(), [5, 6, 7]);
    assert_eq!(state.get_depth(), 4);
}

#[test]
fn set_palette_refuses_empty_palette() {
    let mut state = Mandelbrot::new(4, ramp(2)).unwrap();
    assert!(!state.set_palette(Vec::new()));
    assert_eq!(state.palette_len(), 2);
    assert_eq!(state.get_bucket(1).unwrap().get_color(), [1, 2, 254]);
}

#[test]
fn full_palette_paints_escape_time_with_its_own_slot() {
    let palette: Vec<ColorBucket> = (0..20).map(|i| ColorBucket::from_rgb([i, 0, 0])).collect();
    let state = Mandelbrot::new(20, palette).unwrap();
    let values = vec![Some(0), Some(19), Some(7), None, Some(3)];
    let pixels = state.create_pixel_triplets(&values);
    assert_eq!(pixels, vec![[0, 0, 0], [19, 0, 0], [7, 0, 0], [0, 0, 0], [3, 0, 0]]);
}

#[test]
fn short_palette_is_banded() {
    let state = Mandelbrot::new(400, ramp(4)).unwrap();
    // escape times 100..=300: bands = 4, modifier = 50
    let values = vec![Some(100), Some(300), Some(149), Some(150), Some(250), None];
    let pixels = state.create_pixel_triplets(&values);
    let slot = |i: u8| [i, 2 * i, 255 - i];
    assert_eq!(pixels, vec![slot(2), slot(2), slot(2), slot(3), slot(1), [0, 0, 0]]);
}

#[test]
fn depth_below_palette_length_sets_the_bands() {
    let state = Mandelbrot::new(2, ramp(8)).unwrap();
    // range 0..=9: bands = min(8, 2) = 2, modifier = 4
    let values = vec![Some(0), Some(9), Some(4), Some(8)];
    let pixels = state.create_pixel_triplets(&values);
    let slot = |i: u8| [i, 2 * i, 255 - i];
    assert_eq!(pixels, vec![slot(0), slot(2), slot(1), slot(2)]);
}

#[test]
fn single_escape_time_collapses_to_one_slot() {
    let state = Mandelbrot::new(400, ramp(4)).unwrap();
    let values = vec![Some(57), None, Some(57), Some(57)];
    let pixels = state.create_pixel_triplets(&values);
    // modifier 1: slot 57 % 4 = 1
    assert_eq!(pixels, vec![[1, 2, 254], [0, 0, 0], [1, 2, 254], [1, 2, 254]]);
}

#[test]
fn create_pixels_is_flat_row_major_rgb() {
    let state = Mandelbrot::new(400, ramp(4)).unwrap();
    let values = vec![Some(1), None, Some(2)];
    let bytes = state.create_pixels(&values);
    assert_eq!(bytes, vec![1, 2, 254, 0, 0, 0, 2, 4, 253]);
}

#[test]
fn create_pixels_agrees_with_triplets() {
    let state = Mandelbrot::new(50, ramp(7)).unwrap();
    let values: Vec<Option<u32>> = (0..200u32)
        .map(|i| if i % 5 == 0 { None } else { Some((i * 37) % 50) })
        .collect();
    let pixels = state.create_pixel_triplets(&values);
    let bytes = state.create_pixels(&values);
    assert_eq!(pixels.len(), 200);
    assert_eq!(bytes.len(), 600);
    let flat: Vec<u8> = pixels.iter().flat_map(|p| p.iter().copied()).collect();
    assert_eq!(flat, bytes);
}

#[test]
fn empty_grid_gives_empty_buffers() {
    let state = Mandelbrot::new(50, ramp(7)).unwrap();
    assert!(state.create_pixel_triplets(&Vec::new()).is_empty());
    assert!(state.create_pixels(&Vec::new()).is_empty());
}
