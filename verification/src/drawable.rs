//! Off-screen render targets and pixel readback.
//!
//! A [`Drawable`] wraps exactly one single-layer [`Texture`] created with
//! render-target and copy-source usage. The renderer draws into its target
//! view; [`Drawable::read_pixels`] then copies the rendered texels through
//! a host-readable staging buffer back into a [`PixelImage`].

use crate::gpu;
use crate::gpu::TextureUsage;
use crate::pixel::lemma_byte_count_bound;
use crate::pixel::lemma_solid_pixels;
use crate::pixel::solid_bytes;
use crate::pixel::Bgra;
use crate::pixel::PixelImage;
use crate::rows;
use crate::texture::create_texture_array;
use crate::texture::Pipeline;
use crate::texture::Texture;
use crate::transform::Transformation;
use std::rc::Rc;
use vstd::prelude::*;

verus! {

/// How a readback can fail. Mapping failure is surfaced as a distinct
/// outcome, never masked as an empty image.
#[derive(Clone, Copy, Debug, PartialEq, Eq, Structural)]
pub enum ReadbackError {
    /// The asynchronous host mapping of the staging buffer reported
    /// failure.
    MapFailed,
    /// The mapped bytes do not hold exactly `4 * width * height` bytes.
    ByteCountMismatch,
}

/// The mapped bytes of a mapping outcome, if any.
pub open spec fn mapped_bytes(mapped: Option<Vec<u8>>) -> Option<Seq<u8>> {
    match mapped {
        Some(v) => Some(v@),
        None => None,
    }
}

/// Exactly what finishing a readback of a `width` x `height` target yields
/// for a given mapping outcome: a mapping failure surfaces as
/// `MapFailed`; mapped bytes of the wrong count surface as
/// `ByteCountMismatch`; mapped bytes of exactly `4 * width * height` become
/// an image of those bytes and dimensions.
pub open spec fn readback_post(
    width: u16,
    height: u16,
    mapped: Option<Seq<u8>>,
    r: Result<PixelImage, ReadbackError>,
) -> bool {
    &&& (mapped is None <==> r == Err::<PixelImage, ReadbackError>(ReadbackError::MapFailed))
    &&& ((mapped matches Some(b) && b.len() != 4 * (width as int) * (height as int)) <==> r
        == Err::<PixelImage, ReadbackError>(ReadbackError::ByteCountMismatch))
    &&& ((mapped matches Some(b) && b.len() == 4 * (width as int) * (height as int)) <==> r is Ok)
    &&& (r matches Ok(img) ==> img.wf() && img.spec_width() == width && img.spec_height() == height
        && (mapped matches Some(b) && img.spec_bytes() == b))
}

/// Turn the outcome of the staging buffer's host mapping into the
/// readback's result.
pub fn complete_readback(width: u16, height: u16, mapped: Option<Vec<u8>>) -> (r: Result<
    PixelImage,
    ReadbackError,
>)
    ensures
        readback_post(width, height, mapped_bytes(mapped), r),
{
    match mapped {
        None => Err(ReadbackError::MapFailed),
        Some(bytes) => match PixelImage::from_bytes(width, height, bytes) {
            Ok(img) => Ok(img),
            Err(_) => Err(ReadbackError::ByteCountMismatch),
        },
    }
}

/// Law: a readback is a function of the target's dimensions and the mapped
/// bytes alone. Two readbacks over identical mapped bytes — in particular
/// two readbacks of the same unmodified drawable — yield byte-identical
/// results.
pub proof fn lemma_readback_deterministic(
    width: u16,
    height: u16,
    mapped: Option<Seq<u8>>,
    r1: Result<PixelImage, ReadbackError>,
    r2: Result<PixelImage, ReadbackError>,
)
    requires
        readback_post(width, height, mapped, r1),
        readback_post(width, height, mapped, r2),
    ensures
        r1 matches Err(e1) ==> r2 == r1,
        r1 matches Ok(i1) ==> r2 matches Ok(i2) && i1.spec_width() == i2.spec_width()
            && i1.spec_height() == i2.spec_height() && i1.spec_bytes() == i2.spec_bytes(),
{
}

/// Law: a readback that maps the byte sequence of a solid fill — what
/// rendering one solid color into the whole target leaves in the staging
/// buffer — yields an image of `4 * width * height` bytes whose every
/// pixel is that color.
pub proof fn lemma_solid_round_trip(
    width: u16,
    height: u16,
    color: Bgra,
    r: Result<PixelImage, ReadbackError>,
)
    requires
        readback_post(
            width,
            height,
            Some(solid_bytes(width as int, height as int, color)),
            r,
        ),
    ensures
        r is Ok,
        r matches Ok(img) ==> img.spec_bytes().len() == 4 * (width as int) * (height as int)
            && forall|x: int, y: int|
            0 <= x < width && 0 <= y < height ==> img.spec_pixel(x, y) == color,
{
    lemma_byte_count_bound(width, height);
    let r_img = r.unwrap();
    assert forall|x: int, y: int| 0 <= x < width && 0 <= y < height implies r_img.spec_pixel(
        x,
        y,
    ) == color by {
        lemma_solid_pixels(width as int, height as int, color, x, y);
    }
}

/// An off-screen render target: one single-layer texture with render and
/// copy-source usage.
#[derive(Debug)]
pub struct Drawable<B> {
    texture: Texture<B>,
}

impl<B> Clone for Drawable<B> {
    /// A clone shares the underlying GPU target; the dimensions carry
    /// over unchanged.
    fn clone(&self) -> (res: Self)
        ensures
            res.spec_texture().spec_width() == self.spec_texture().spec_width(),
            res.spec_texture().spec_height() == self.spec_texture().spec_height(),
            res.spec_texture().spec_layers() == self.spec_texture().spec_layers(),
            res.spec_texture().spec_raw() == self.spec_texture().spec_raw(),
            res.spec_texture().spec_view() == self.spec_texture().spec_view(),
    {
        Drawable { texture: self.texture.clone() }
    }
}

impl<B> Drawable<B> {
    /// The wrapped render-target texture.
    pub closed spec fn spec_texture(&self) -> Texture<B> {
        self.texture
    }

    /// Width of the target in pixels.
    pub open spec fn spec_width(&self) -> u16 {
        self.spec_texture().spec_width()
    }

    /// Height of the target in pixels.
    pub open spec fn spec_height(&self) -> u16 {
        self.spec_texture().spec_height()
    }

    /// A drawable is a well-formed texture of exactly one layer whose GPU
    /// resource was created as a render target, so its pixels can be
    /// copied out.
    pub open spec fn wf(&self) -> bool {
        self.spec_texture().wf() && self.spec_texture().spec_layers() == 1
            && gpu::texture_render_target(*self.spec_texture().spec_raw())
    }

    /// Create an off-screen target of the given size. No pixel data is
    /// uploaded; the renderer fills the target by drawing into it.
    pub fn new<P: Pipeline<B>>(
        device: &wgpu::Device,
        pipeline: &P,
        width: u16,
        height: u16,
    ) -> (d: Drawable<B>)
        requires
            0 < width <= gpu::MAX_TEXTURE_SIDE,
            0 < height <= gpu::MAX_TEXTURE_SIDE,
        ensures
            d.wf(),
            d.spec_width() == width,
            d.spec_height() == height,
    {
        let (raw, view, binding) = create_texture_array(
            device,
            pipeline,
            width,
            height,
            None,
            TextureUsage::RenderTarget,
        );
        Drawable { texture: Texture::from_parts(raw, view, binding, width, height) }
    }

    /// The wrapped texture, for sampling a rendered drawable elsewhere.
    pub fn texture(&self) -> (t: &Texture<B>)
        ensures
            *t == self.spec_texture(),
    {
        &self.texture
    }

    /// The view a render pass draws into: the stored texture's own view,
    /// no fresh resource.
    pub fn target(&self) -> (v: &Rc<wgpu::TextureView>)
        ensures
            *v == self.spec_texture().spec_view(),
    {
        self.texture.view()
    }

    /// Read the rendered pixels back into CPU memory. Copies the target
    /// into a fresh single-use staging buffer, submits the caller's
    /// command stream, blocks until the asynchronous host mapping has
    /// completed, and returns the mapped bytes as an image of the
    /// drawable's dimensions. A mapping failure surfaces as
    /// `ReadbackError::MapFailed`.
    pub fn read_pixels(
        &self,
        device: &wgpu::Device,
        queue: &wgpu::Queue,
        encoder: wgpu::CommandEncoder,
    ) -> (r: Result<PixelImage, ReadbackError>)
        requires
            self.wf(),
        ensures
            r matches Ok(img) ==> img.wf() && img.spec_width() == self.spec_width()
                && img.spec_height() == self.spec_height() && img.spec_bytes().len() == 4 * (
            self.spec_width() as int) * (self.spec_height() as int),
            r matches Err(e) ==> e == ReadbackError::MapFailed,
    {
        let width = self.texture.width();
        let height = self.texture.height();
        let padded: u32 = rows::padded_row_bytes(width);
        proof {
            rows::lemma_padded_row_bounds(width);
            rows::lemma_padded_size(width, height);
        }
        let size: u64 = (padded as u64) * (height as u64);
        let buffer = gpu::create_readback_buffer(device, size);
        let mut encoder = encoder;
        proof {
            assert((padded as int) * ((height as int) - 1) + 4 * (width as int) <= (padded as int)
                * (height as int)) by (nonlinear_arith)
                requires
                    4 * (width as int) <= padded,
                    height >= 1,
            ;
        }
        gpu::encode_texture_to_buffer_copy(
            &mut encoder,
            self.texture.raw(),
            &buffer,
            width as u32,
            height as u32,
            padded,
        );
        let commands = gpu::finish_commands(encoder);
        gpu::submit_commands(queue, commands);
        match gpu::map_read_all(device, buffer) {
            None => complete_readback(width, height, None),
            Some(bytes) => {
                let tight = rows::compact_rows(&bytes, 4 * (width as u32), padded, height as u32);
                complete_readback(width, height, Some(tight))
            },
        }
    }

    /// The transformation a draw pass applies when rendering directly
    /// into a drawable: the identity, since no flip or scale correction
    /// is needed for this target type.
    pub fn render_transformation() -> (t: Transformation)
        ensures
            t == Transformation::spec_identity(),
    {
        Transformation::identity()
    }
}

} // verus!
