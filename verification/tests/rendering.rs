use wpaperd::errors::DrawError;
use wpaperd::protocol::{self, SetupStep, SubmitStep, TeardownStep};
use wpaperd::raster::{render_frame, Raster};
use wpaperd::select::{is_jpg_extension, pick_source};

fn blank_raster(width: u32, height: u32) -> Raster {
    Raster {
        width,
        height,
        pixels: vec![0u8; (4 * width * height) as usize],
    }
}

#[test]
fn fill_wide_source_exact_dimensions() {
    let src = blank_raster(400, 200);
    let frame = render_frame(&src, 192, 108).expect("fill of a sound source succeeds");
    assert_eq!(frame.width, 192);
    assert_eq!(frame.height, 108);
    assert_eq!(frame.pixels.len(), 4 * 192 * 108);
}

#[test]
fn fill_tall_source_exact_dimensions() {
    let src = blank_raster(100, 400);
    let frame = render_frame(&src, 192, 108).expect("fill of a sound source succeeds");
    assert_eq!(frame.width, 192);
    assert_eq!(frame.height, 108);
    assert_eq!(frame.pixels.len(), 4 * 192 * 108);
}

#[test]
fn fill_from_decoded_image() {
    // A raster taken from a real decoded image buffer.
    let buf = image::RgbaImage::from_pixel(40, 20, image::Rgba([255, 0, 0, 255]));
    let src = Raster {
        width: buf.width(),
        height: buf.height(),
        pixels: buf.into_raw(),
    };
    let frame = render_frame(&src, 16, 16).expect("fill of a decoded image succeeds");
    assert_eq!(frame.width, 16);
    assert_eq!(frame.height, 16);
    assert_eq!(frame.pixels.len(), 4 * 16 * 16);
}

#[test]
fn malformed_sources_are_rejected() {
    let short = Raster { width: 2, height: 2, pixels: vec![0u8; 5] };
    assert!(matches!(
        render_frame(&short, 8, 8),
        Err(DrawError::MalformedSource)
    ));
    let empty = Raster { width: 0, height: 4, pixels: Vec::new() };
    assert!(matches!(
        render_frame(&empty, 8, 8),
        Err(DrawError::MalformedSource)
    ));
}

#[test]
fn empty_enumeration_is_a_configuration_error() {
    assert_eq!(pick_source(&Vec::new()), Err(DrawError::EmptyDirectory));
}

#[test]
fn picked_index_is_in_range() {
    let files = vec!["a.jpg".to_string(), "b.jpg".to_string(), "c.jpg".to_string()];
    for _ in 0..32 {
        let i = pick_source(&files).expect("a non-empty enumeration yields a pick");
        assert!(i < files.len());
    }
}

#[test]
fn jpg_extension_is_case_insensitive() {
    assert!(is_jpg_extension(b"jpg"));
    assert!(is_jpg_extension(b"JPG"));
    assert!(is_jpg_extension(b"JpG"));
    assert!(!is_jpg_extension(b"png"));
    assert!(!is_jpg_extension(b"jpeg"));
    assert!(!is_jpg_extension(b""));
}

#[test]
fn submission_order_is_attach_damage_commit() {
    let plan = protocol::submission_plan(100, 50);
    assert_eq!(
        plan,
        vec![
            SubmitStep::Attach { x: 0, y: 0 },
            SubmitStep::Damage { x: 0, y: 0, width: 100, height: 50 },
            SubmitStep::Commit,
        ]
    );
}

#[test]
fn negotiation_and_teardown_sequences() {
    assert_eq!(
        protocol::init_plan(),
        vec![
            SetupStep::CreateLayerSurface,
            SetupStep::SetSize { width: 0, height: 0 },
            SetupStep::AnchorAllEdges,
            SetupStep::SetExclusiveZone { zone: -1 },
            SetupStep::Commit,
        ]
    );
    assert_eq!(
        protocol::teardown_plan(),
        vec![TeardownStep::DestroyLayerSurface, TeardownStep::DestroySurface]
    );
}
