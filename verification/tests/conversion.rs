use oxcii::ascii_converter::{AsciiConversionMethod, AsciiConverter, ConversionError};
use oxcii::image_buffer::ImageBuffer;

fn buffer_from(width: usize, height: usize, samples: Vec<u8>) -> ImageBuffer {
    ImageBuffer::new(width, height, samples)
}

/// A small deterministic pseudo-random byte source for generated images.
fn pseudo_random_samples(count: usize, seed: u64) -> Vec<u8> {
    let mut state = seed.wrapping_mul(6364136223846793005).wrapping_add(1442695040888963407);
    let mut samples = Vec::with_capacity(count);
    for _ in 0..count {
        state = state.wrapping_mul(6364136223846793005).wrapping_add(1442695040888963407);
        samples.push((state >> 33) as u8);
    }
    samples
}

fn run(method: AsciiConversionMethod, img: &ImageBuffer) -> Result<Vec<char>, ConversionError> {
    AsciiConverter::convert(Some(img), method)
}

#[test]
fn cross_strategy_equivalence_on_generated_images() {
    let shapes = [(1usize, 1usize), (1, 7), (7, 1), (4, 3), (16, 9), (5, 3)];
    for (round, &(width, height)) in shapes.iter().enumerate() {
        let samples = pseudo_random_samples(width * height, round as u64 + 1);
        let img = buffer_from(width, height, samples);
        let sequential = run(AsciiConversionMethod::SingleThreadedLoop, &img).unwrap();
        let parallel = run(AsciiConversionMethod::RayonThreadedLoop, &img).unwrap();
        let chunked = run(AsciiConversionMethod::RayonThreadedChunkedLoop, &img).unwrap();
        assert_eq!(sequential, parallel);
        assert_eq!(sequential, chunked);
    }
}

#[test]
fn length_invariant_for_every_strategy() {
    let one_by_one = buffer_from(1, 1, vec![200]);
    let four_by_three = buffer_from(4, 3, pseudo_random_samples(12, 42));
    for method in [
        AsciiConversionMethod::SingleThreadedLoop,
        AsciiConversionMethod::RayonThreadedLoop,
        AsciiConversionMethod::RayonThreadedChunkedLoop,
    ] {
        assert_eq!(run(method, &one_by_one).unwrap().len(), 1);
        assert_eq!(run(method, &four_by_three).unwrap().len(), 12);
    }
}

#[test]
fn row_chunk_boundary_matches_manual_row_by_row_mapping() {
    let rows: [[u8; 5]; 3] = [[0, 30, 60, 90, 120], [150, 180, 210, 240, 255], [5, 9, 13, 8, 7]];
    let mut samples = Vec::new();
    let mut expected = Vec::new();
    for row in rows.iter() {
        for &sample in row.iter() {
            samples.push(sample);
            expected.push(AsciiConverter::convert_pixel_to_ascii(sample));
        }
    }
    let img = buffer_from(5, 3, samples);
    let chunked = run(AsciiConversionMethod::RayonThreadedChunkedLoop, &img).unwrap();
    assert_eq!(chunked, expected);
}

#[test]
fn determinism_under_repetition() {
    let img = buffer_from(8, 5, pseudo_random_samples(40, 7));
    for method in [
        AsciiConversionMethod::SingleThreadedLoop,
        AsciiConversionMethod::RayonThreadedLoop,
        AsciiConversionMethod::RayonThreadedChunkedLoop,
    ] {
        let first = run(method, &img).unwrap();
        let second = run(method, &img).unwrap();
        assert_eq!(first, second);
    }
}

#[test]
fn fatal_precondition_on_absent_buffer() {
    for method in [
        AsciiConversionMethod::SingleThreadedLoop,
        AsciiConversionMethod::RayonThreadedLoop,
        AsciiConversionMethod::RayonThreadedChunkedLoop,
    ] {
        assert_eq!(
            AsciiConverter::convert(None, method),
            Err(ConversionError::PreconditionFailure)
        );
    }
}

#[test]
fn fatal_precondition_on_malformed_buffers() {
    let zero_width = buffer_from(0, 3, vec![1, 2, 3]);
    let zero_height = buffer_from(3, 0, vec![1, 2, 3]);
    let short_samples = buffer_from(2, 2, vec![1, 2, 3]);
    for img in [&zero_width, &zero_height, &short_samples] {
        assert_eq!(
            AsciiConverter::single_threaded_loop(img),
            Err(ConversionError::PreconditionFailure)
        );
        assert_eq!(
            AsciiConverter::rayon_threaded_loop(img),
            Err(ConversionError::PreconditionFailure)
        );
        assert_eq!(
            AsciiConverter::rayon_threaded_chunked_loop(img),
            Err(ConversionError::PreconditionFailure)
        );
    }
}

#[test]
fn parallel_strategies_map_samples_to_glyphs() {
    // Would fail if a parallel path handed the sample bytes back unchanged:
    // every zero sample must come out as the darkest glyph.
    let img = buffer_from(3, 2, vec![0, 0, 0, 0, 0, 0]);
    let expected = vec!['.'; 6];
    assert_eq!(run(AsciiConversionMethod::RayonThreadedLoop, &img).unwrap(), expected);
    assert_eq!(run(AsciiConversionMethod::RayonThreadedChunkedLoop, &img).unwrap(), expected);
}

#[test]
fn menu_index_selects_strategies_in_declaration_order() {
    assert_eq!(
        AsciiConversionMethod::from_menu_index(1),
        Some(AsciiConversionMethod::SingleThreadedLoop)
    );
    assert_eq!(
        AsciiConversionMethod::from_menu_index(2),
        Some(AsciiConversionMethod::RayonThreadedLoop)
    );
    assert_eq!(
        AsciiConversionMethod::from_menu_index(3),
        Some(AsciiConversionMethod::RayonThreadedChunkedLoop)
    );
    assert_eq!(AsciiConversionMethod::from_menu_index(0), None);
    assert_eq!(AsciiConversionMethod::from_menu_index(4), None);
}
