use mandelbrot_core::color_bucket::ColorBucket;
use mandelbrot_core::mandelbrot::Mandelbrot;
use mandelbrot_core::sampler::pixel_offsets;
use mandelbrot_core::snapshot::{encode_snapshot, sequence_names, snapshot_path};

fn escape_time(point: [f64; 2], max_depth: u32) -> Option<u32> {
    let (mut re, mut im) = (0.0f64, 0.0f64);
    for i in 0..max_depth {
        let next_re = re * re - im * im + point[0];
        let next_im = 2.0 * re * im + point[1];
        re = next_re;
        im = next_im;
        if re * re + im * im >= 4.0 {
            return Some(i);
        }
    }
    None
}

fn palette(n: u32) -> Vec<ColorBucket> {
    (0..n)
        .map(|i| ColorBucket::from_rgb([(i % 256) as u8, ((i / 2) % 256) as u8, 255]))
        .collect()
}

#[test]
fn default_view_renders_sixteen_pixels() {
    let center = [0.41825764120184555, -0.34087020355542164];
    let step_size = 1.0 / 800.0;
    let state = Mandelbrot::new(400, palette(400)).unwrap();
    let offsets = pixel_offsets([4, 4]);
    assert_eq!(offsets.len(), 16);
    let values: Vec<Option<u32>> = offsets
        .iter()
        .map(|p| {
            let point = [
                center[0] + step_size * p[0] as f64,
                center[1] + step_size * p[1] as f64,
            ];
            escape_time(point, state.get_depth())
        })
        .collect();
    assert_eq!(values.len(), 16);
    assert!(values.iter().all(|v| v.map_or(true, |n| n < 400)));
    let pixels = state.create_pixel_triplets(&values);
    assert_eq!(pixels.len(), 16);
    let bytes = state.create_pixels(&values);
    assert_eq!(bytes.len(), 48);
    for (value, pixel) in values.iter().zip(pixels.iter()) {
        match value {
            None => assert_eq!(*pixel, [0, 0, 0]),
            Some(n) => assert_eq!(*pixel, [(*n % 256) as u8, ((*n / 2) % 256) as u8, 255]),
        }
    }
    assert!(encode_snapshot(&bytes, [4, 4]).is_ok());
}

#[test]
fn zoom_sequence_of_three_frames_is_named_in_order() {
    let names = sequence_names("seq_", 3);
    assert_eq!(names, vec!["seq_000000", "seq_000001", "seq_000002"]);
    let files: Vec<String> = names.iter().map(|n| snapshot_path(n)).collect();
    assert_eq!(files, vec!["seq_000000.png", "seq_000001.png", "seq_000002.png"]);
    let state = Mandelbrot::new(400, palette(16)).unwrap();
    let mut step_size = 1.0f64 / 800.0;
    let mut steps = Vec::new();
    for _ in &names {
        steps.push(step_size);
        let values: Vec<Option<u32>> = pixel_offsets([2, 2])
            .iter()
            .map(|p| escape_time([0.5 + step_size * p[0] as f64, step_size * p[1] as f64], 400))
            .collect();
        let bytes = state.create_pixels(&values);
        assert_eq!(bytes.len(), 12);
        assert!(encode_snapshot(&bytes, [2, 2]).is_ok());
        step_size *= 0.5;
    }
    assert_eq!(steps, vec![1.0 / 800.0, 1.0 / 1600.0, 1.0 / 3200.0]);
}

#[test]
fn all_bounded_grid_is_all_background() {
    let state = Mandelbrot::new(400, palette(5)).unwrap();
    let values: Vec<Option<u32>> = vec![None; 64];
    let pixels = state.create_pixel_triplets(&values);
    assert_eq!(pixels.len(), 64);
    assert!(pixels.iter().all(|p| *p == [0, 0, 0]));
    let bytes = state.create_pixels(&values);
    assert_eq!(bytes, vec![0u8; 192]);
}
