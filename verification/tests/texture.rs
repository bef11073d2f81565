use gpu_texture::pixel::PixelImage;
use gpu_texture::texture::array_layout;
use gpu_texture::texture::flatten_layers;
use gpu_texture::texture::TextureArrayError;

#[test]
fn layout_of_equal_layers_counts_them() {
    let layers = vec![
        PixelImage::from_bytes(2, 1, vec![0u8; 8]).expect("8 bytes fit 2x1"),
        PixelImage::from_bytes(2, 1, vec![1u8; 8]).expect("8 bytes fit 2x1"),
        PixelImage::from_bytes(2, 1, vec![2u8; 8]).expect("8 bytes fit 2x1"),
    ];
    assert_eq!(array_layout(&layers), Ok((2, 1, 3)));
}

#[test]
fn layout_rejects_an_empty_array() {
    assert_eq!(array_layout(&vec![]), Err(TextureArrayError::EmptyArray));
}

#[test]
fn layout_rejects_mismatched_layer_sizes() {
    let layers = vec![
        PixelImage::from_bytes(1, 1, vec![0u8; 4]).expect("4 bytes fit 1x1"),
        PixelImage::from_bytes(2, 1, vec![0u8; 8]).expect("8 bytes fit 2x1"),
    ];
    assert_eq!(array_layout(&layers), Err(TextureArrayError::LayerSizeMismatch));
}

#[test]
fn layout_rejects_more_layers_than_the_count_can_hold() {
    let one = PixelImage::from_bytes(1, 1, vec![0u8; 4]).expect("4 bytes fit 1x1");
    let mut layers = Vec::new();
    for _ in 0..0x10000 {
        layers.push(one.clone());
    }
    assert_eq!(array_layout(&layers), Err(TextureArrayError::TooManyLayers));
}

#[test]
fn flatten_concatenates_layers_in_order() {
    let first = PixelImage::from_bytes(1, 1, vec![1u8, 2, 3, 4]).expect("4 bytes fit 1x1");
    let second = PixelImage::from_bytes(1, 1, vec![5u8, 6, 7, 8]).expect("4 bytes fit 1x1");
    let flat = flatten_layers(&vec![first, second]);
    assert_eq!(flat, vec![1u8, 2, 3, 4, 5, 6, 7, 8]);
}

#[test]
fn flatten_of_one_layer_is_its_bytes() {
    let only = PixelImage::from_bytes(2, 1, vec![8u8, 7, 6, 5, 4, 3, 2, 1]).expect("8 bytes");
    let flat = flatten_layers(&vec![only]);
    assert_eq!(flat, vec![8u8, 7, 6, 5, 4, 3, 2, 1]);
}
