use image::GenericImageView;
use mandelbrot_core::mandelbrot_error::MandelbrotError;
use mandelbrot_core::snapshot::{
    check_shape, encode_snapshot, frame_name, sequence_names, snapshot_outcome, snapshot_path,
};

#[test]
fn snapshot_path_appends_png_suffix() {
    assert_eq!(snapshot_path("20190101_120000"), "20190101_120000.png");
    assert_eq!(snapshot_path(""), ".png");
    assert_eq!(snapshot_path("a.png"), "a.png.png");
}

#[test]
fn frame_name_pads_index_to_six_digits() {
    assert_eq!(frame_name("seq_", 0), "seq_000000");
    assert_eq!(frame_name("seq_", 7), "seq_000007");
    assert_eq!(frame_name("seq_", 42), "seq_000042");
    assert_eq!(frame_name("seq_", 999), "seq_000999");
    assert_eq!(frame_name("", 123456), "123456");
}

#[test]
fn frame_name_keeps_longer_indices_whole() {
    assert_eq!(frame_name("f", 1234567), "f1234567");
    assert_eq!(frame_name("f", usize::MAX), format!("f{:06}", usize::MAX));
}

#[test]
fn frame_name_agrees_with_std_formatting() {
    for i in [0usize, 9, 10, 99, 100, 5000, 99999, 100000, 999999, 1000000] {
        assert_eq!(frame_name("p", i), format!("{}{:06}", "p", i));
    }
}

#[test]
fn sequence_names_lists_frames_in_order() {
    let names = sequence_names("zoom", 12);
    assert_eq!(names.len(), 12);
    assert_eq!(names[0], "zoom000000");
    assert_eq!(names[11], "zoom000011");
    assert!(sequence_names("zoom", 0).is_empty());
}

#[test]
fn check_shape_wants_three_bytes_per_pixel() {
    assert!(check_shape(&vec![0; 12], [2, 2]));
    assert!(check_shape(&vec![0; 12], [4, 1]));
    assert!(!check_shape(&vec![0; 11], [2, 2]));
    assert!(!check_shape(&vec![0; 13], [2, 2]));
    assert!(!check_shape(&Vec::new(), [0, 0]));
    assert!(!check_shape(&Vec::new(), [0, 5]));
    assert!(!check_shape(&vec![0; 12], [-2, -2]));
}

#[test]
fn encode_snapshot_makes_a_png_that_decodes_to_the_pixels() {
    let pixels: Vec<u8> = vec![255, 0, 0, 0, 255, 0, 0, 0, 255, 10, 20, 30, 40, 50, 60, 0, 0, 0];
    let bytes = encode_snapshot(&pixels, [3, 2]).unwrap();
    assert_eq!(&bytes[..8], &[137, 80, 78, 71, 13, 10, 26, 10]);
    assert_ne!(bytes, pixels);
    let decoded = image::load_from_memory_with_format(&bytes, image::ImageFormat::PNG).unwrap();
    assert_eq!(decoded.dimensions(), (3, 2));
    assert_eq!(decoded.to_rgb().into_raw(), pixels);
}

#[test]
fn encode_snapshot_is_a_function_of_its_arguments() {
    let pixels: Vec<u8> = (0..48u8).collect();
    let first = encode_snapshot(&pixels, [4, 4]).unwrap();
    let second = encode_snapshot(&pixels, [4, 4]).unwrap();
    assert_eq!(first, second);
    let other = encode_snapshot(&pixels, [8, 2]).unwrap();
    assert_ne!(first, other);
}

#[test]
fn encode_snapshot_refuses_mismatched_buffer() {
    let result = encode_snapshot(&vec![0; 10], [2, 2]);
    assert!(matches!(result, Err(MandelbrotError::Io(_))));
}

#[test]
fn encode_snapshot_refuses_empty_or_negative_shape() {
    assert!(matches!(encode_snapshot(&Vec::new(), [0, 0]), Err(MandelbrotError::Io(_))));
    assert!(matches!(encode_snapshot(&Vec::new(), [0, 7]), Err(MandelbrotError::Io(_))));
    assert!(matches!(encode_snapshot(&vec![0; 3], [-1, -1]), Err(MandelbrotError::Io(_))));
}

#[test]
fn snapshot_outcome_keeps_bytes_and_wraps_errors() {
    let ok = snapshot_outcome(Ok(vec![1, 2, 3]));
    assert_eq!(ok.unwrap(), vec![1, 2, 3]);
    let err = snapshot_outcome(Err(std::io::Error::new(std::io::ErrorKind::Other, "disk full")));
    match err {
        Err(MandelbrotError::Io(cause)) => {
            assert_eq!(cause.kind(), std::io::ErrorKind::Other);
            assert_eq!(cause.to_string(), "disk full");
        }
        Ok(_) => panic!("an error must stay an error"),
    }
}
