use cubevis::cards::screen_header;
use cubevis::cube::{ingest, DataCube, VisError};

/// One 80-byte header card: keyword, value right-justified in the value field.
fn card(keyword: &str, value: &str) -> Vec<u8> {
    let mut c = format!("{:<8}= {:>20}", keyword, value).into_bytes();
    c.resize(80, b' ');
    c
}

/// The 80-byte END card.
fn end_card() -> Vec<u8> {
    let mut end = b"END".to_vec();
    end.resize(80, b' ');
    end
}

/// A FITS stream: a primary header with the given sample format, axes and
/// extra cards, and the given data block right after the 2880-byte header
/// block.
fn fits_stream(bitpix: i64, axes: &[u64], extra_cards: &[Vec<u8>], data: &[u8]) -> Vec<u8> {
    let mut bytes = Vec::new();
    bytes.extend_from_slice(&card("SIMPLE", "T"));
    bytes.extend_from_slice(&card("BITPIX", &bitpix.to_string()));
    bytes.extend_from_slice(&card("NAXIS", &axes.len().to_string()));
    for (i, extent) in axes.iter().enumerate() {
        bytes.extend_from_slice(&card(&format!("NAXIS{}", i + 1), &extent.to_string()));
    }
    for extra in extra_cards {
        bytes.extend_from_slice(extra);
    }
    bytes.extend_from_slice(&end_card());
    bytes.resize(2880, b' ');
    bytes.extend_from_slice(data);
    bytes
}

/// A FITS stream of 32-bit float samples.
fn fits_with_axes(axes: &[u64], data: &[u8]) -> Vec<u8> {
    fits_stream(-32, axes, &[], data)
}

#[test]
fn ingest_accepts_a_three_axis_cube() {
    let data: Vec<u8> = (0..48u8).collect();
    let bytes = fits_with_axes(&[3, 2, 2], &data);
    let cube = ingest(&bytes).expect("a well-formed cube");
    assert_eq!((cube.width, cube.height, cube.depth), (3, 2, 2));
    assert_eq!(cube.samples.len(), 48);
    // Each four-byte word of the container is big-endian; the cube buffer is
    // little-endian, so every aligned quad comes out reversed.
    assert_eq!(&cube.samples[0..8], &[3, 2, 1, 0, 7, 6, 5, 4]);
    assert_eq!(&cube.samples[44..48], &[47, 46, 45, 44]);
}

#[test]
fn ingest_reads_fourth_axis_when_third_is_degenerate() {
    let data = vec![0u8; 2 * 2 * 5 * 4];
    let bytes = fits_with_axes(&[2, 2, 1, 5], &data);
    let cube = ingest(&bytes).expect("a well-formed cube");
    assert_eq!((cube.width, cube.height, cube.depth), (2, 2, 5));
    assert_eq!(cube.samples.len(), 80);
}

#[test]
fn ingest_keeps_fourth_axis_out_when_third_is_not_degenerate() {
    // A trailing degenerate fourth axis: the depth is the third extent and
    // the data block is sized the same either way.
    let data = vec![9u8; 2 * 3 * 4 * 4];
    let bytes = fits_with_axes(&[2, 3, 4, 1], &data);
    let cube = ingest(&bytes).expect("a well-formed cube");
    assert_eq!((cube.width, cube.height, cube.depth), (2, 3, 4));
}

#[test]
fn ingest_accepts_depth_one() {
    let data = vec![1u8; 2 * 2 * 1 * 4];
    let bytes = fits_with_axes(&[2, 2, 1], &data);
    let cube = ingest(&bytes).expect("a well-formed cube");
    assert_eq!((cube.width, cube.height, cube.depth), (2, 2, 1));
}

#[test]
fn ingest_rejects_a_truncated_data_block() {
    let bytes = fits_with_axes(&[4, 4, 4], &[0u8; 100]);
    assert!(matches!(ingest(&bytes), Err(VisError::InvalidCube)));
}

#[test]
fn ingest_rejects_a_zero_extent() {
    let bytes = fits_with_axes(&[0, 4, 4], &[0u8; 256]);
    assert!(matches!(ingest(&bytes), Err(VisError::InvalidCube)));
}

#[test]
fn ingest_rejects_fewer_than_three_axes() {
    let bytes = fits_with_axes(&[16, 16], &[0u8; 1024]);
    assert!(matches!(ingest(&bytes), Err(VisError::InvalidCube)));
}

#[test]
fn ingest_rejects_a_stream_that_is_no_fits() {
    assert!(matches!(ingest(b"not a fits stream"), Err(VisError::InvalidCube)));
    assert!(matches!(ingest(&[]), Err(VisError::InvalidCube)));
}

#[test]
fn cube_build_succeeds_exactly_on_matching_extents() {
    // Every positive extent triple with a buffer of exactly w*h*d*4 bytes
    // builds; any length mismatch or zero extent is an invalid cube.
    let ok = DataCube::new(2, 3, 4, vec![0u8; 2 * 3 * 4 * 4]).expect("matching buffer");
    assert_eq!((ok.width, ok.height, ok.depth), (2, 3, 4));
    assert_eq!(ok.samples.len(), 96);

    let ok = DataCube::new(1, 1, 1, vec![0u8; 4]).expect("smallest cube");
    assert_eq!(ok.samples.len(), 4);

    assert!(matches!(
        DataCube::new(2, 3, 4, vec![0u8; 95]),
        Err(VisError::InvalidCube)
    ));
    assert!(matches!(
        DataCube::new(2, 3, 4, vec![0u8; 97]),
        Err(VisError::InvalidCube)
    ));
    assert!(matches!(DataCube::new(0, 3, 4, vec![]), Err(VisError::InvalidCube)));
    assert!(matches!(
        DataCube::new(2, 0, 4, vec![0u8; 32]),
        Err(VisError::InvalidCube)
    ));
    assert!(matches!(DataCube::new(2, 3, 0, vec![0u8; 0]), Err(VisError::InvalidCube)));
}

#[test]
fn ingest_rejects_a_lone_quote_value_card() {
    // A value field holding nothing but a single quote is an unterminated
    // string; the header screen turns the stream away before the container
    // parser would choke on it.
    let data = vec![0u8; 2 * 2 * 2 * 4];
    let bytes = fits_stream(-32, &[2, 2, 2], &[card("BADSTR", "'")], &data);
    assert!(!screen_header(&bytes));
    assert!(matches!(ingest(&bytes), Err(VisError::InvalidCube)));
}

#[test]
fn ingest_rejects_a_lone_quote_first_card() {
    // Cards are read before the stream is even known to be a FITS file, so
    // the screen covers the very first card too.
    let mut bytes = card("BADSTR", "'");
    bytes.extend_from_slice(&end_card());
    bytes.resize(2880, b' ');
    assert!(!screen_header(&bytes));
    assert!(matches!(ingest(&bytes), Err(VisError::InvalidCube)));
}

#[test]
fn ingest_rejects_a_lone_quote_continuation_card() {
    let mut cont = b"CONTINUE".to_vec();
    cont.resize(20, b' ');
    cont.push(b'\'');
    cont.resize(80, b' ');
    let data = vec![0u8; 2 * 2 * 2 * 4];
    let bytes = fits_stream(-32, &[2, 2, 2], &[cont], &data);
    assert!(!screen_header(&bytes));
    assert!(matches!(ingest(&bytes), Err(VisError::InvalidCube)));
}

#[test]
fn screen_passes_ordinary_headers() {
    let data = vec![0u8; 2 * 2 * 2 * 4];
    let bytes = fits_stream(-32, &[2, 2, 2], &[card("OBJECT", "'M31     '")], &data);
    assert!(screen_header(&bytes));
    // An ordinary quoted string is no lone quote: the stream still ingests.
    let cube = ingest(&bytes).expect("a well-formed cube");
    assert_eq!((cube.width, cube.height, cube.depth), (2, 2, 2));
}

#[test]
fn ingest_rejects_wrong_sample_width() {
    // The cube model holds 32-bit floating-point samples; one-byte or
    // eight-byte sample formats are not displayable as such.
    let data = vec![0u8; 2 * 2 * 2 * 8];
    let bytes = fits_stream(8, &[2, 2, 2], &[], &data);
    assert!(matches!(ingest(&bytes), Err(VisError::InvalidCube)));
    let bytes = fits_stream(-64, &[2, 2, 2], &[], &data);
    assert!(matches!(ingest(&bytes), Err(VisError::InvalidCube)));
}

#[test]
fn ingest_rejects_a_real_fourth_axis() {
    // A real fourth axis beside a non-degenerate third: the data block holds
    // more than one cube, so no single cube matches it.
    let data = vec![0u8; 2 * 2 * 2 * 2 * 4];
    let bytes = fits_stream(-32, &[2, 2, 2, 2], &[], &data);
    assert!(matches!(ingest(&bytes), Err(VisError::InvalidCube)));
}

#[test]
fn ingest_rejects_an_overflowing_extent() {
    // A single advertised extent so large that the container parser's 64-bit
    // size product would overflow: the screen turns the stream away.
    let bytes = fits_stream(-32, &[5_000_000_000_000_000_000], &[], &[]);
    assert!(!screen_header(&bytes));
    assert!(matches!(ingest(&bytes), Err(VisError::InvalidCube)));
}

#[test]
fn ingest_rejects_extents_whose_product_overflows() {
    // Each extent is modest but their product passes the 64-bit range.
    let bytes = fits_stream(-32, &[4_000_000_000, 4_000_000_000, 4_000_000_000], &[], &[]);
    assert!(!screen_header(&bytes));
    assert!(matches!(ingest(&bytes), Err(VisError::InvalidCube)));
}

#[test]
fn ingest_rejects_a_hierarchical_axis_card() {
    // A hierarchical keyword card could shadow an axis keyword outside the
    // fixed keyword field; the screen turns such headers away.
    let mut hier = b"HIERARCH NAXIS1 = 7".to_vec();
    hier.resize(80, b' ');
    let data = vec![0u8; 2 * 2 * 2 * 4];
    let bytes = fits_stream(-32, &[2, 2, 2], &[hier], &data);
    assert!(!screen_header(&bytes));
    assert!(matches!(ingest(&bytes), Err(VisError::InvalidCube)));
}

#[test]
fn screen_passes_large_but_bounded_extents() {
    // A realistic large cube stays well within the digit budget; the stream
    // is only rejected later, for its truncated data block.
    let bytes = fits_stream(-32, &[2048, 2048, 1024], &[], &[0u8; 64]);
    assert!(screen_header(&bytes));
    assert!(matches!(ingest(&bytes), Err(VisError::InvalidCube)));
}
