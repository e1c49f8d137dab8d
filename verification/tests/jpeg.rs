use dualcam::capture::{decode, frame_from_buffer, ingest, shape_fits, Outcome, Rejection};
use dualcam::format::{FrameFormat, PixelEncoding};
use dualcam::jpeg::{
    first_frame_header, inspect, is_frame_code, is_segment_code, within_decoder_limits,
    Inspection, Shape, BASELINE, MAX_SIDE,
};
use dualcam::store::FrameSlot;

const SOI: [u8; 2] = [0xff, 0xd8];

/// A quantization table segment whose first two values are `first` and
/// `second` and whose other values are ones.
fn quantization(first: u8, second: u8) -> Vec<u8> {
    let mut out = vec![0xff, 0xdb, 0x00, 0x43, 0x00, first, second];
    out.extend_from_slice(&[1u8; 62]);
    out
}

/// A frame header with the given start-of-frame code, sides and number of
/// components. The components are tagged R, G and B.
fn frame_header(code: u8, components: u8, columns: u16, lines: u16) -> Vec<u8> {
    let mut out = vec![0xff, code, 0x00, 8 + 3 * components, 0x08];
    out.extend_from_slice(&lines.to_be_bytes());
    out.extend_from_slice(&columns.to_be_bytes());
    out.push(components);
    for id in [0x52, 0x47, 0x42].iter().take(components as usize) {
        out.extend_from_slice(&[*id, 0x11, 0x00]);
    }
    out
}

/// A DC table and an AC table in which the shortest code ends the block,
/// and an empty scan over the components. The decoder reads zero bits
/// once the scan has ended, so every block is flat and every sample 128.
fn tables_and_empty_scan(components: u8) -> Vec<u8> {
    let mut out = vec![0xff, 0xc4, 0x00, 0x1f, 0x00];
    out.extend_from_slice(&[0, 1, 5, 1, 1, 1, 1, 1, 1, 0, 0, 0, 0, 0, 0, 0]);
    out.extend_from_slice(&[0, 1, 2, 3, 4, 5, 6, 7, 8, 9, 10, 11]);
    out.extend_from_slice(&[0xff, 0xc4, 0x00, 0x14, 0x10]);
    out.extend_from_slice(&[1, 0, 0, 0, 0, 0, 0, 0, 0, 0, 0, 0, 0, 0, 0, 0, 0x00]);
    out.extend_from_slice(&[0xff, 0xda, 0x00, 6 + 2 * components, components]);
    for id in [0x52, 0x47, 0x42].iter().take(components as usize) {
        out.extend_from_slice(&[*id, 0x00]);
    }
    out.extend_from_slice(&[0x00, 0x3f, 0x00, 0xff, 0xd9]);
    out
}

/// A flat mid-grey JPEG with `before` put between the start of the image
/// and the quantization table.
fn jpeg_with(before: &[u8], code: u8, components: u8, columns: u16, lines: u16) -> Vec<u8> {
    let mut out = SOI.to_vec();
    out.extend_from_slice(before);
    out.extend_from_slice(&quantization(1, 1));
    out.extend_from_slice(&frame_header(code, components, columns, lines));
    out.extend_from_slice(&tables_and_empty_scan(components));
    out
}

/// A flat mid-grey colour JPEG.
fn colour_jpeg(columns: u16, lines: u16) -> Vec<u8> {
    jpeg_with(&[], BASELINE, 3, columns, lines)
}

fn mjpg(width: u32, height: u32) -> FrameFormat {
    FrameFormat { width, height, encoding: PixelEncoding::MotionJPEG }
}

fn grey(pixels: usize) -> Vec<u8> {
    vec![128u8; pixels * 3]
}

fn shape(columns: u16, lines: u16, components: u8) -> Shape {
    Shape { lines, columns, components }
}

#[test]
fn frame_codes_are_the_thirteen_of_the_standard() {
    assert_eq!(BASELINE, 0xC0);
    let codes: Vec<u8> = (0..=255u8).filter(|code| is_frame_code(*code)).collect();
    assert_eq!(
        codes,
        vec![0xC0, 0xC1, 0xC2, 0xC3, 0xC5, 0xC6, 0xC7, 0xC9, 0xCA, 0xCB, 0xCD, 0xCE, 0xCF]
    );
}

#[test]
fn segments_passed_over_are_tables_interval_comment_and_application_data() {
    let codes: Vec<u8> = (0..=255u8).filter(|code| is_segment_code(*code)).collect();
    let mut expected = vec![0xC4, 0xDB, 0xDD];
    expected.extend(0xE0..=0xEF);
    expected.push(0xFE);
    assert_eq!(codes, expected);
    assert!((0..=255u8).all(|code| !(is_frame_code(code) && is_segment_code(code))));
}

#[test]
fn frame_header_is_found_behind_the_tables() {
    let data = colour_jpeg(16, 8);
    assert_eq!(first_frame_header(&data), Some(71));
    assert_eq!(&data[71..73], &[0xff, 0xc0]);
    assert_eq!(inspect(&data), Inspection::Frame(shape(16, 8, 3)));
    assert!(within_decoder_limits(&data));
}

#[test]
fn buffer_that_does_not_begin_an_image_has_no_frame_header() {
    let whole = colour_jpeg(16, 8);
    for data in [&[][..], &[0xff][..], &[0x12, 0x34, 0x56][..], &whole[1..], &whole[2..]] {
        assert_eq!(first_frame_header(data), None);
        assert_eq!(inspect(data), Inspection::NoHeader);
        assert!(within_decoder_limits(data));
    }
    let mut late = vec![0x00];
    late.extend_from_slice(&whole);
    assert_eq!(first_frame_header(&late), None);
    assert_eq!(decode(&mjpg(16, 8), &late), Err(Rejection::Undecodable));
}

#[test]
fn another_marker_before_the_frame_header_ends_the_search() {
    // Scan, end of image, arithmetic conditioning, restart, the reserved
    // extension, number of lines, a second start of image, and others.
    for code in [0xda, 0xd9, 0xcc, 0xd0, 0xd7, 0xc8, 0xdc, 0xd8, 0xde, 0xdf, 0xf0, 0x01, 0x02, 0xbf] {
        let data = jpeg_with(&[0xff, code, 0x00, 0x02], BASELINE, 3, 16, 8);
        assert_eq!(first_frame_header(&data), None);
        assert_eq!(decode(&mjpg(16, 8), &data), Err(Rejection::Undecodable));
    }
}

#[test]
fn frame_code_inside_a_comment_is_no_frame_header() {
    // A comment that holds the bytes of a lossless and of a baseline header.
    let mut comment = vec![0xff, 0xfe, 0x00, 0x1c];
    comment.extend_from_slice(&frame_header(0xC3, 1, 8, 8));
    comment.extend_from_slice(&frame_header(0xC0, 1, 65535, 65535));
    assert_eq!(comment.len(), 2 + 0x1c);
    let data = jpeg_with(&comment, BASELINE, 3, 2, 1);
    assert_eq!(first_frame_header(&data), Some(71 + comment.len()));
    assert_eq!(inspect(&data), Inspection::Frame(shape(2, 1, 3)));
    assert_eq!(decode(&mjpg(2, 1), &data), Ok(grey(2)));
}

#[test]
fn frame_code_inside_application_data_is_no_frame_header() {
    for code in 0xe0..=0xef {
        let data = jpeg_with(&[0xff, code, 0x00, 0x06, 0xff, 0xc2, 0xff, 0xcf], BASELINE, 3, 1, 2);
        assert_eq!(first_frame_header(&data), Some(79));
        assert_eq!(decode(&mjpg(1, 2), &data), Ok(grey(2)));
    }
}

#[test]
fn frame_code_inside_a_table_is_no_frame_header() {
    // Quantization values 255 and 194 read like a marker; they are values.
    let mut data = SOI.to_vec();
    data.extend_from_slice(&quantization(0xff, 0xc2));
    data.extend_from_slice(&frame_header(BASELINE, 3, 2, 2));
    data.extend_from_slice(&tables_and_empty_scan(3));
    assert_eq!(first_frame_header(&data), Some(71));
    assert_eq!(decode(&mjpg(2, 2), &data), Ok(grey(4)));
    // The same in the last bytes of a segment, right before the header.
    let data = jpeg_with(&[0xff, 0xfe, 0x00, 0x04, 0xff, 0xc0], BASELINE, 3, 2, 2);
    assert_eq!(first_frame_header(&data), Some(77));
    assert_eq!(decode(&mjpg(2, 2), &data), Ok(grey(4)));
}

#[test]
fn fill_bytes_and_stray_bytes_before_a_marker_are_passed_over() {
    let plain = colour_jpeg(2, 2);
    let filled = jpeg_with(&[0xff, 0xff, 0xff], BASELINE, 3, 2, 2);
    // The marker byte of the table is the last of the fill bytes.
    assert_eq!(first_frame_header(&filled), Some(74));
    assert_eq!(decode(&mjpg(2, 2), &filled), decode(&mjpg(2, 2), &plain));
    let stray = jpeg_with(&[0x11, 0x22, 0xff, 0x00, 0x33], BASELINE, 3, 2, 2);
    assert_eq!(first_frame_header(&stray), Some(76));
    assert_eq!(decode(&mjpg(2, 2), &stray), Ok(grey(4)));
}

#[test]
fn segment_with_an_impossible_length_ends_the_search() {
    for length in [[0x00, 0x00], [0x00, 0x01]] {
        let data = jpeg_with(&[0xff, 0xfe, length[0], length[1]], BASELINE, 3, 2, 2);
        assert_eq!(first_frame_header(&data), None);
        assert_eq!(decode(&mjpg(2, 2), &data), Err(Rejection::Undecodable));
    }
    // A comment that claims more bytes than the buffer has.
    let data = jpeg_with(&[0xff, 0xfe, 0xff, 0xff], BASELINE, 3, 2, 2);
    assert_eq!(first_frame_header(&data), None);
    assert_eq!(decode(&mjpg(2, 2), &data), Err(Rejection::Undecodable));
    // A comment that ends with the buffer.
    assert_eq!(first_frame_header(&[0xff, 0xd8, 0xff, 0xfe, 0x00, 0x03, 0x07]), None);
    // A marker without its length.
    assert_eq!(first_frame_header(&[0xff, 0xd8, 0xff, 0xfe, 0x00]), None);
}

#[test]
fn frames_other_than_baseline_are_not_decoded() {
    for code in [0xC1, 0xC2, 0xC3, 0xC5, 0xC6, 0xC7, 0xC9, 0xCA, 0xCB, 0xCD, 0xCE, 0xCF] {
        let data = jpeg_with(&[], code, 3, 16, 8);
        assert_eq!(first_frame_header(&data), Some(71));
        assert_eq!(inspect(&data), Inspection::BeyondLimits);
        assert!(!within_decoder_limits(&data));
        assert_eq!(decode(&mjpg(16, 8), &data), Err(Rejection::Unsupported));
    }
}

#[test]
fn sides_are_limited_to_what_the_decoder_counts() {
    assert_eq!(MAX_SIDE, 65528);
    assert_eq!(inspect(&colour_jpeg(8, 65528)), Inspection::Frame(shape(8, 65528, 3)));
    assert_eq!(inspect(&colour_jpeg(8, 65529)), Inspection::BeyondLimits);
    assert_eq!(inspect(&colour_jpeg(8, 65535)), Inspection::BeyondLimits);
    assert_eq!(inspect(&colour_jpeg(65528, 8)), Inspection::Frame(shape(65528, 8, 3)));
    assert_eq!(inspect(&colour_jpeg(65529, 8)), Inspection::BeyondLimits);
    assert_eq!(inspect(&colour_jpeg(65535, 8)), Inspection::BeyondLimits);
    assert_eq!(inspect(&colour_jpeg(0, 0)), Inspection::Frame(shape(0, 0, 3)));
}

#[test]
fn header_cut_short_is_not_decoded() {
    let whole = colour_jpeg(16, 8);
    // The header begins at byte 71; its number of components is byte 80.
    for len in 73..81 {
        assert_eq!(inspect(&whole[..len]), Inspection::BeyondLimits);
        assert_eq!(decode(&mjpg(16, 8), &whole[..len]), Err(Rejection::Unsupported));
    }
    assert_eq!(inspect(&whole[..81]), Inspection::Frame(shape(16, 8, 3)));
    assert_eq!(decode(&mjpg(16, 8), &whole[..81]), Err(Rejection::Undecodable));
    // Cut before the code there is no header at all.
    assert_eq!(inspect(&whole[..72]), Inspection::NoHeader);
    assert_eq!(decode(&mjpg(16, 8), &whole[..72]), Err(Rejection::Undecodable));
}

#[test]
fn only_the_first_frame_header_counts() {
    let mut data = colour_jpeg(2, 2);
    data.extend_from_slice(&colour_jpeg(8, 65535));
    data.extend_from_slice(&jpeg_with(&[], 0xC3, 3, 8, 8));
    assert_eq!(inspect(&data), Inspection::Frame(shape(2, 2, 3)));
    assert_eq!(decode(&mjpg(2, 2), &data), Ok(grey(4)));

    let mut bad_first = jpeg_with(&[], 0xC2, 3, 2, 2);
    bad_first.extend_from_slice(&colour_jpeg(2, 2));
    assert_eq!(inspect(&bad_first), Inspection::BeyondLimits);
    assert_eq!(decode(&mjpg(2, 2), &bad_first), Err(Rejection::Unsupported));
}

#[test]
fn shape_has_to_be_the_negotiated_colour_picture() {
    assert!(shape_fits(&mjpg(16, 8), shape(16, 8, 3)));
    assert!(!shape_fits(&mjpg(16, 8), shape(8, 16, 3)));
    assert!(!shape_fits(&mjpg(16, 8), shape(16, 8, 1)));
    assert!(!shape_fits(&mjpg(16, 8), shape(16, 8, 4)));
    assert!(!shape_fits(&mjpg(16, 8), shape(16, 9, 3)));
    assert!(!shape_fits(&mjpg(65536 + 16, 8), shape(16, 8, 3)));
    assert!(shape_fits(&mjpg(65528, 65528), shape(65528, 65528, 3)));
}

#[test]
fn small_colour_frame_decodes() {
    assert_eq!(decode(&mjpg(3, 2), &colour_jpeg(3, 2)), Ok(grey(6)));
    assert_eq!(frame_from_buffer(&mjpg(3, 2), &colour_jpeg(3, 2)), Ok(grey(6)));
}

#[test]
fn grey_picture_is_no_colour_frame() {
    // One component of 3 x 1 samples has the byte count of one RGB pixel.
    let data = jpeg_with(&[], BASELINE, 1, 3, 1);
    assert_eq!(inspect(&data), Inspection::Frame(shape(3, 1, 1)));
    let refusal = Rejection::WrongShape { lines: 1, columns: 3, components: 1 };
    assert_eq!(decode(&mjpg(1, 1), &data), Err(refusal));
    assert_eq!(frame_from_buffer(&mjpg(1, 1), &data), Err(refusal));
    assert_eq!(frame_from_buffer(&mjpg(3, 1), &data), Err(refusal));
}

#[test]
fn tallest_frame_within_limits_decodes() {
    let pixels = decode(&mjpg(8, 65528), &colour_jpeg(8, 65528)).unwrap();
    assert_eq!(pixels.len(), 8 * 65528 * 3);
    assert!(pixels.iter().all(|byte| *byte == 128));
}

#[test]
fn widest_frame_within_limits_decodes() {
    let pixels = decode(&mjpg(65528, 8), &colour_jpeg(65528, 8)).unwrap();
    assert_eq!(pixels.len(), 65528 * 8 * 3);
    assert!(pixels.iter().all(|byte| *byte == 128));
}

#[test]
fn frame_too_tall_or_too_wide_is_not_handed_to_the_decoder() {
    for side in [65529u16, 65530, 65535] {
        for components in [1, 3] {
            let tall = jpeg_with(&[], BASELINE, components, 8, side);
            assert_eq!(decode(&mjpg(8, side as u32), &tall), Err(Rejection::Unsupported));
            let wide = jpeg_with(&[], BASELINE, components, side, 8);
            assert_eq!(decode(&mjpg(side as u32, 8), &wide), Err(Rejection::Unsupported));
        }
    }
}

#[test]
fn large_frame_of_another_geometry_is_not_handed_to_the_decoder() {
    // Thirty-odd bytes that declare more than four thousand million pixels.
    let mut data = SOI.to_vec();
    data.extend_from_slice(&frame_header(BASELINE, 3, 65528, 65528));
    assert_eq!(inspect(&data), Inspection::Frame(shape(65528, 65528, 3)));
    assert_eq!(
        frame_from_buffer(&mjpg(1280, 720), &data),
        Err(Rejection::WrongShape { lines: 65528, columns: 65528, components: 3 })
    );
}

#[test]
fn unfit_buffers_are_skipped_and_capture_goes_on() {
    let mut slot = FrameSlot::new(mjpg(2, 1));
    assert_eq!(ingest(&mut slot, &colour_jpeg(2, 1)), Outcome::Published);
    assert_eq!(
        ingest(&mut slot, &jpeg_with(&[], 0xC3, 3, 2, 1)),
        Outcome::Skipped(Rejection::Unsupported)
    );
    assert_eq!(
        ingest(&mut slot, &colour_jpeg(2, 65535)),
        Outcome::Skipped(Rejection::Unsupported)
    );
    assert_eq!(
        ingest(&mut slot, &colour_jpeg(1, 2)),
        Outcome::Skipped(Rejection::WrongShape { lines: 2, columns: 1, components: 3 })
    );
    assert_eq!(slot.snapshot(), grey(2));
    assert_eq!(ingest(&mut slot, &colour_jpeg(2, 1)), Outcome::Published);
}

#[test]
fn well_formed_frame_with_marker_bytes_in_its_segments_is_published() {
    let mut comment = vec![0xff, 0xfe, 0x00, 0x06, 0xff, 0xc2, 0xff, 0xc0];
    comment.extend_from_slice(&[0xff, 0xe1, 0x00, 0x04, 0xff, 0xcb]);
    let marked = jpeg_with(&comment, BASELINE, 3, 2, 1);
    let deliveries = vec![marked.clone(), vec![0xff, 0xd8, 0x00], marked.clone(), marked];
    let mut slot = FrameSlot::new(mjpg(2, 1));
    assert_eq!(dualcam::capture::ingest_all(&mut slot, &deliveries), 3);
    assert_eq!(slot.snapshot(), grey(2));
}

#[test]
fn raw_buffers_are_not_looked_over() {
    // Under direct RGB the bytes of a frame header are pixels like any other.
    let format = FrameFormat { width: 1, height: 1, encoding: PixelEncoding::RawRGB };
    let data = [0xff, 0xc3, 0x00];
    assert_eq!(decode(&format, &data), Ok(data.to_vec()));
    assert_eq!(frame_from_buffer(&format, &data), Ok(data.to_vec()));
}
