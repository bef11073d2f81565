use gpu_texture::pixel::Bgra;
use gpu_texture::pixel::PixelFormatError;
use gpu_texture::pixel::PixelImage;

#[test]
fn from_bytes_accepts_exact_count() {
    let bytes = vec![9u8; 16];
    let img = PixelImage::from_bytes(2, 2, bytes.clone()).expect("16 bytes fit 2x2");
    assert_eq!(img.width(), 2);
    assert_eq!(img.height(), 2);
    assert_eq!(img.bytes(), &bytes);
}

#[test]
fn from_bytes_rejects_wrong_count() {
    let r = PixelImage::from_bytes(1, 1, vec![0u8; 3]);
    assert!(matches!(r, Err(PixelFormatError::ByteCountMismatch)));
    let r = PixelImage::from_bytes(2, 3, vec![0u8; 25]);
    assert!(matches!(r, Err(PixelFormatError::ByteCountMismatch)));
}

#[test]
fn from_rgba_swaps_first_and_third_channel() {
    let rgba = vec![10u8, 20, 30, 40, 50, 60, 70, 80];
    let img = PixelImage::from_rgba_bytes(2, 1, &rgba).expect("8 bytes fit 2x1");
    assert_eq!(img.bytes(), &vec![30u8, 20, 10, 40, 70, 60, 50, 80]);
}

#[test]
fn from_rgba_rejects_wrong_count() {
    let r = PixelImage::from_rgba_bytes(2, 1, &vec![0u8; 7]);
    assert!(matches!(r, Err(PixelFormatError::ByteCountMismatch)));
}

#[test]
fn rgba_round_trip_restores_bytes() {
    let rgba = vec![1u8, 2, 3, 4, 5, 6, 7, 8, 9, 10, 11, 12];
    let img = PixelImage::from_rgba_bytes(3, 1, &rgba).expect("12 bytes fit 3x1");
    assert_eq!(img.to_rgba_bytes(), rgba);
}

#[test]
fn solid_repeats_the_color_bytes() {
    let red = Bgra { b: 0, g: 0, r: 255, a: 255 };
    let img = PixelImage::solid(2, 1, red);
    assert_eq!(img.bytes(), &vec![0u8, 0, 255, 255, 0, 0, 255, 255]);
}

#[test]
fn pixel_reads_the_right_bytes() {
    let bytes = vec![
        1u8, 2, 3, 4, // (0, 0)
        5, 6, 7, 8, // (1, 0)
        9, 10, 11, 12, // (0, 1)
        13, 14, 15, 16, // (1, 1)
    ];
    let img = PixelImage::from_bytes(2, 2, bytes).expect("16 bytes fit 2x2");
    assert_eq!(img.pixel(0, 0), Bgra { b: 1, g: 2, r: 3, a: 4 });
    assert_eq!(img.pixel(1, 0), Bgra { b: 5, g: 6, r: 7, a: 8 });
    assert_eq!(img.pixel(0, 1), Bgra { b: 9, g: 10, r: 11, a: 12 });
    assert_eq!(img.pixel(1, 1), Bgra { b: 13, g: 14, r: 15, a: 16 });
}

#[test]
fn solid_pixels_all_equal_the_fill() {
    let c = Bgra { b: 7, g: 77, r: 177, a: 255 };
    let img = PixelImage::solid(3, 2, c);
    for y in 0..2 {
        for x in 0..3 {
            assert_eq!(img.pixel(x, y), c);
        }
    }
}

#[test]
fn clone_copies_the_pixels() {
    let img = PixelImage::from_bytes(1, 2, vec![1u8, 2, 3, 4, 5, 6, 7, 8]).expect("8 bytes");
    let copy = img.clone();
    assert_eq!(copy.width(), img.width());
    assert_eq!(copy.height(), img.height());
    assert_eq!(copy.bytes(), img.bytes());
}

#[test]
fn into_bytes_hands_back_the_buffer() {
    let img = PixelImage::from_bytes(1, 1, vec![4u8, 3, 2, 1]).expect("4 bytes");
    assert_eq!(img.into_bytes(), vec![4u8, 3, 2, 1]);
}
