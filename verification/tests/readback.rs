use gpu_texture::drawable::complete_readback;
use gpu_texture::drawable::Drawable;
use gpu_texture::drawable::ReadbackError;
use gpu_texture::pixel::Bgra;
use gpu_texture::pixel::PixelImage;
use gpu_texture::transform::Transformation;

#[test]
fn mapping_failure_surfaces_as_error() {
    let r = complete_readback(2, 2, None);
    assert!(matches!(r, Err(ReadbackError::MapFailed)));
}

#[test]
fn wrong_byte_count_surfaces_as_error() {
    let r = complete_readback(2, 2, Some(vec![0u8; 15]));
    assert!(matches!(r, Err(ReadbackError::ByteCountMismatch)));
    let r = complete_readback(2, 2, Some(vec![]));
    assert!(matches!(r, Err(ReadbackError::ByteCountMismatch)));
}

#[test]
fn one_by_one_readback_has_four_bytes() {
    let img = complete_readback(1, 1, Some(vec![1u8, 2, 3, 4])).expect("4 bytes fit 1x1");
    assert_eq!(img.width(), 1);
    assert_eq!(img.height(), 1);
    assert_eq!(img.bytes().len(), 4);
    assert_eq!(img.pixel(0, 0), Bgra { b: 1, g: 2, r: 3, a: 4 });
}

#[test]
fn two_by_two_solid_red_readback() {
    let red = Bgra { b: 0, g: 0, r: 255, a: 255 };
    let rendered = PixelImage::solid(2, 2, red).into_bytes();
    let img = complete_readback(2, 2, Some(rendered)).expect("16 bytes fit 2x2");
    let expected: Vec<u8> = vec![
        0, 0, 255, 255, //
        0, 0, 255, 255, //
        0, 0, 255, 255, //
        0, 0, 255, 255,
    ];
    assert_eq!(img.bytes(), &expected);
    for y in 0..2 {
        for x in 0..2 {
            assert_eq!(img.pixel(x, y), red);
        }
    }
}

#[test]
fn readback_is_deterministic_in_the_mapped_bytes() {
    let mapped = vec![1u8, 2, 3, 4, 5, 6, 7, 8];
    let first = complete_readback(2, 1, Some(mapped.clone())).expect("8 bytes fit 2x1");
    let second = complete_readback(2, 1, Some(mapped)).expect("8 bytes fit 2x1");
    assert_eq!(first.width(), second.width());
    assert_eq!(first.height(), second.height());
    assert_eq!(first.bytes(), second.bytes());
}

#[test]
fn render_transformation_is_the_identity() {
    let t = Drawable::<()>::render_transformation();
    assert_eq!(t, Transformation::identity());
    assert_eq!(t.m00, 1);
    assert_eq!(t.m11, 1);
    assert_eq!(t.m22, 1);
    assert_eq!(t.m01, 0);
    assert_eq!(t.m02, 0);
    assert_eq!(t.m10, 0);
    assert_eq!(t.m12, 0);
    assert_eq!(t.m20, 0);
    assert_eq!(t.m21, 0);
}
