use gpu_texture::rows::compact_rows;
use gpu_texture::rows::padded_row_bytes;
use gpu_texture::rows::COPY_ROW_ALIGNMENT;

#[test]
fn row_pitch_rounds_up_to_the_alignment() {
    assert_eq!(padded_row_bytes(1), 256);
    assert_eq!(padded_row_bytes(2), 256);
    assert_eq!(padded_row_bytes(64), 256);
    assert_eq!(padded_row_bytes(65), 512);
    assert_eq!(padded_row_bytes(100), 512);
    assert_eq!(padded_row_bytes(8192), 32768);
    assert_eq!(COPY_ROW_ALIGNMENT, 256);
}

#[test]
fn compact_keeps_the_head_of_each_row() {
    // two rows of 4 bytes each, padded to 8 bytes per row
    let padded = vec![
        1u8, 2, 3, 4, 0, 0, 0, 0, //
        5, 6, 7, 8, 0, 0, 0, 0,
    ];
    let tight = compact_rows(&padded, 4, 8, 2);
    assert_eq!(tight, vec![1u8, 2, 3, 4, 5, 6, 7, 8]);
}

#[test]
fn compact_of_tight_rows_is_the_identity() {
    let bytes = vec![9u8, 8, 7, 6, 5, 4, 3, 2, 1, 0, 11, 12];
    let same = compact_rows(&bytes, 4, 4, 3);
    assert_eq!(same, bytes);
}

#[test]
fn compact_ignores_the_padding_content() {
    let padded = vec![
        1u8, 2, 255, 254, //
        3, 4, 253, 252,
    ];
    let tight = compact_rows(&padded, 2, 4, 2);
    assert_eq!(tight, vec![1u8, 2, 3, 4]);
}
