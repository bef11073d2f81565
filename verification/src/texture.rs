//! GPU-resident textures: single images and stacked arrays.
//!
//! A [`Texture`] owns a GPU texture resource, a sampleable 2D-array view
//! over all its layers, and the shader binding the pipeline collaborator
//! made for that view. Width, height and layer count are fixed at
//! construction. Clones share the underlying GPU resource through
//! reference counting; the resource is released when the last clone is
//! dropped.

use crate::gpu;
use crate::gpu::TextureUsage;
use crate::pixel::PixelImage;
use std::rc::Rc;
use vstd::prelude::*;

verus! {

/// The pipeline collaborator: asked exactly once per texture to bind a
/// sampleable view into a shader-visible texture slot. The binding it
/// returns is treated as opaque.
pub trait Pipeline<B> {
    fn create_texture_binding(&self, device: &wgpu::Device, view: &wgpu::TextureView) -> B;
}

/// Why a stacked-array construction was rejected.
#[derive(Clone, Copy, Debug, PartialEq, Eq, Structural)]
pub enum TextureArrayError {
    /// No layers were given.
    EmptyArray,
    /// More layers than the 16-bit layer count can hold.
    TooManyLayers,
    /// Some layer's dimensions differ from the first layer's.
    LayerSizeMismatch,
}

/// The byte length of one layer: every layer of a stacked array has the
/// first layer's dimensions.
pub open spec fn layer_stride(layers: Seq<PixelImage>) -> int {
    4 * (layers[0].spec_width() as int) * (layers[0].spec_height() as int)
}

/// Concatenate equally-sized layers into one flat upload buffer, first
/// layer first.
pub fn flatten_layers(layers: &Vec<PixelImage>) -> (flat: Vec<u8>)
    requires
        layers@.len() >= 1,
        forall|i: int|
            0 <= i < layers@.len() ==> (#[trigger] layers@[i]).wf() && layers@[i].spec_width()
                == layers@[0].spec_width() && layers@[i].spec_height()
                == layers@[0].spec_height(),
    ensures
        flat@.len() == layers@.len() * layer_stride(layers@),
        forall|i: int|
            0 <= i < layers@.len() ==> flat@.subrange(
                i * layer_stride(layers@),
                (i + 1) * layer_stride(layers@),
            ) == (#[trigger] layers@[i]).spec_bytes(),
{
    let ghost stride = layer_stride(layers@);
    proof {
        assert(stride >= 0) by (nonlinear_arith)
            requires
                stride == 4 * (layers@[0].spec_width() as int) * (layers@[0].spec_height() as int),
                layers@[0].spec_width() >= 0,
                layers@[0].spec_height() >= 0,
        ;
    }
    let mut flat: Vec<u8> = Vec::new();
    let mut li: usize = 0;
    while li < layers.len()
        invariant
            0 <= li <= layers@.len(),
            stride == layer_stride(layers@),
            stride >= 0,
            forall|i: int|
                0 <= i < layers@.len() ==> (#[trigger] layers@[i]).wf() && layers@[i].spec_width()
                    == layers@[0].spec_width() && layers@[i].spec_height()
                    == layers@[0].spec_height(),
            flat@.len() == li * stride,
            forall|i: int|
                0 <= i < li ==> flat@.subrange(i * stride, (i + 1) * stride) == (
                #[trigger] layers@[i]).spec_bytes(),
        decreases layers@.len() - li,
    {
        let ghost flat0 = flat@;
        let layer_bytes = layers[li].bytes();
        let mut j: usize = 0;
        while j < layer_bytes.len()
            invariant
                0 <= j <= layer_bytes@.len(),
                flat@ == flat0 + layer_bytes@.subrange(0, j as int),
            decreases layer_bytes@.len() - j,
        {
            flat.push(layer_bytes[j]);
            proof {
                assert(flat@ =~= flat0 + layer_bytes@.subrange(0, j + 1));
            }
            j = j + 1;
        }
        proof {
            assert(layer_bytes@.subrange(0, layer_bytes@.len() as int) =~= layer_bytes@);
            assert(flat@ =~= flat0 + layer_bytes@);
            assert(layer_bytes@.len() == stride);
            assert((li + 1) * stride == li * stride + stride) by (nonlinear_arith);
            assert forall|i: int| 0 <= i < li + 1 implies flat@.subrange(
                i * stride,
                (i + 1) * stride,
            ) == (#[trigger] layers@[i]).spec_bytes() by {
                assert(0 <= i * stride && (i + 1) * stride <= (li + 1) * stride) by (
                nonlinear_arith)
                    requires
                        0 <= i < li + 1,
                        stride >= 0,
                ;
                assert((i + 1) * stride == i * stride + stride) by (nonlinear_arith);
                if i < li {
                    assert((i + 1) * stride <= li * stride) by (nonlinear_arith)
                        requires
                            i + 1 <= li,
                            stride >= 0,
                    ;
                    assert(flat@.subrange(i * stride, (i + 1) * stride) =~= flat0.subrange(
                        i * stride,
                        (i + 1) * stride,
                    ));
                } else {
                    assert(flat@.subrange(li * stride, (li + 1) * stride) =~= layer_bytes@);
                }
            }
        }
        li = li + 1;
    }
    flat
}

/// Validate the layers of a stacked array: at least one layer, no more
/// than the 16-bit layer count can hold, and every layer of the first
/// layer's dimensions. Returns that common width and height and the layer
/// count.
pub fn array_layout(layers: &Vec<PixelImage>) -> (r: Result<(u16, u16, u16), TextureArrayError>)
    ensures
        r is Ok <==> (1 <= layers@.len() <= 0xffff && forall|i: int|
            0 <= i < layers@.len() ==> (#[trigger] layers@[i]).spec_width()
                == layers@[0].spec_width() && layers@[i].spec_height()
                == layers@[0].spec_height()),
        r matches Ok(t) ==> t.0 == layers@[0].spec_width() && t.1 == layers@[0].spec_height()
            && t.2 == layers@.len(),
        layers@.len() == 0 ==> r == Err::<(u16, u16, u16), TextureArrayError>(
            TextureArrayError::EmptyArray,
        ),
        layers@.len() > 0xffff ==> r == Err::<(u16, u16, u16), TextureArrayError>(
            TextureArrayError::TooManyLayers,
        ),
        1 <= layers@.len() <= 0xffff && (exists|i: int|
            0 <= i < layers@.len() && ((#[trigger] layers@[i]).spec_width()
                != layers@[0].spec_width() || layers@[i].spec_height()
                != layers@[0].spec_height())) ==> r == Err::<(u16, u16, u16), TextureArrayError>(
            TextureArrayError::LayerSizeMismatch,
        ),
{
    if layers.len() == 0 {
        return Err(TextureArrayError::EmptyArray);
    }
    if layers.len() > 0xffff {
        return Err(TextureArrayError::TooManyLayers);
    }
    let width = layers[0].width();
    let height = layers[0].height();
    let mut i: usize = 1;
    while i < layers.len()
        invariant
            1 <= i <= layers@.len(),
            1 <= layers@.len() <= 0xffff,
            width == layers@[0].spec_width(),
            height == layers@[0].spec_height(),
            forall|j: int|
                0 <= j < i ==> (#[trigger] layers@[j]).spec_width() == width
                    && layers@[j].spec_height() == height,
        decreases layers@.len() - i,
    {
        if layers[i].width() != width || layers[i].height() != height {
            return Err(TextureArrayError::LayerSizeMismatch);
        }
        i = i + 1;
    }
    Ok((width, height, layers.len() as u16))
}

/// A GPU texture with `layers` layers of `width` x `height` BGRA texels,
/// its sampleable view, and its shader binding.
#[derive(Debug)]
pub struct Texture<B> {
    raw: Rc<wgpu::Texture>,
    view: Rc<wgpu::TextureView>,
    binding: Rc<B>,
    width: u16,
    height: u16,
    layers: u16,
}

impl<B> Clone for Texture<B> {
    /// A clone is a new logical handle sharing the same GPU resource,
    /// view and binding; the resource is destroyed only when the last
    /// clone is dropped. All fields carry over unchanged.
    fn clone(&self) -> (res: Self)
        ensures
            res.spec_width() == self.spec_width(),
            res.spec_height() == self.spec_height(),
            res.spec_layers() == self.spec_layers(),
            res.spec_raw() == self.spec_raw(),
            res.spec_view() == self.spec_view(),
            res.spec_binding() == self.spec_binding(),
    {
        Texture {
            raw: gpu::rc_clone(&self.raw),
            view: gpu::rc_clone(&self.view),
            binding: gpu::rc_clone(&self.binding),
            width: self.width,
            height: self.height,
            layers: self.layers,
        }
    }
}

impl<B> Texture<B> {
    /// Width in texels, fixed at construction.
    pub closed spec fn spec_width(&self) -> u16 {
        self.width
    }

    /// Height in texels, fixed at construction.
    pub closed spec fn spec_height(&self) -> u16 {
        self.height
    }

    /// Number of array layers, fixed at construction.
    pub closed spec fn spec_layers(&self) -> u16 {
        self.layers
    }

    /// The shared GPU texture handle.
    pub closed spec fn spec_raw(&self) -> Rc<wgpu::Texture> {
        self.raw
    }

    /// The shared view over all layers.
    pub closed spec fn spec_view(&self) -> Rc<wgpu::TextureView> {
        self.view
    }

    /// The shared shader binding.
    pub closed spec fn spec_binding(&self) -> Rc<B> {
        self.binding
    }

    /// A texture has at least one texel per layer and one layer, fits the
    /// limits of a default-limit device, within which it was created, and
    /// its stored dimensions agree with the extent its GPU resource was
    /// created with.
    pub open spec fn wf(&self) -> bool {
        &&& 0 < self.spec_width() <= gpu::MAX_TEXTURE_SIDE
        &&& 0 < self.spec_height() <= gpu::MAX_TEXTURE_SIDE
        &&& 1 <= self.spec_layers() <= gpu::MAX_TEXTURE_LAYERS
        &&& gpu::texture_width(*self.spec_raw()) == self.spec_width()
        &&& gpu::texture_height(*self.spec_raw()) == self.spec_height()
        &&& gpu::texture_layer_count(*self.spec_raw()) == self.spec_layers()
    }

    pub fn width(&self) -> (w: u16)
        ensures
            w == self.spec_width(),
    {
        self.width
    }

    pub fn height(&self) -> (h: u16)
        ensures
            h == self.spec_height(),
    {
        self.height
    }

    pub fn layers(&self) -> (l: u16)
        ensures
            l == self.spec_layers(),
    {
        self.layers
    }

    /// The sampleable view, for the render path only: the very view
    /// created over this texture, no fresh resource.
    pub(crate) fn view(&self) -> (v: &Rc<wgpu::TextureView>)
        ensures
            *v == self.spec_view(),
    {
        &self.view
    }

    /// The shader binding, for the render path only: the binding the
    /// pipeline made for this texture's view.
    pub(crate) fn binding(&self) -> (b: &Rc<B>)
        ensures
            *b == self.spec_binding(),
    {
        &self.binding
    }

    /// The raw GPU handle, for the backend's copy commands only.
    pub(crate) fn raw(&self) -> (t: &wgpu::Texture)
        ensures
            *t == self.spec_raw(),
    {
        &*self.raw
    }

    /// Wrap freshly created single-layer GPU handles.
    pub(crate) fn from_parts(
        raw: wgpu::Texture,
        view: wgpu::TextureView,
        binding: B,
        width: u16,
        height: u16,
    ) -> (t: Texture<B>)
        requires
            0 < width <= gpu::MAX_TEXTURE_SIDE,
            0 < height <= gpu::MAX_TEXTURE_SIDE,
            gpu::texture_width(raw) == width,
            gpu::texture_height(raw) == height,
            gpu::texture_layer_count(raw) == 1,
        ensures
            t.wf(),
            t.spec_width() == width,
            t.spec_height() == height,
            t.spec_layers() == 1,
            t.spec_raw() == raw,
            t.spec_view() == view,
            t.spec_binding() == binding,
    {
        Texture {
            raw: Rc::new(raw),
            view: Rc::new(view),
            binding: Rc::new(binding),
            width,
            height,
            layers: 1,
        }
    }

    /// Build a single-layer sampled texture from one image, uploading its
    /// pixels.
    pub fn new<P: Pipeline<B>>(
        device: &wgpu::Device,
        queue: &wgpu::Queue,
        pipeline: &P,
        image: &PixelImage,
    ) -> (t: Texture<B>)
        requires
            image.wf(),
            0 < image.spec_width() <= gpu::MAX_TEXTURE_SIDE,
            0 < image.spec_height() <= gpu::MAX_TEXTURE_SIDE,
        ensures
            t.wf(),
            t.spec_width() == image.spec_width(),
            t.spec_height() == image.spec_height(),
            t.spec_layers() == 1,
    {
        let width = image.width();
        let height = image.height();
        let mut single: Vec<PixelImage> = Vec::new();
        single.push(image.clone());
        let (raw, view, binding) = create_texture_array(
            device,
            pipeline,
            width,
            height,
            Some((queue, &single)),
            TextureUsage::Sampled,
        );
        Texture {
            raw: Rc::new(raw),
            view: Rc::new(view),
            binding: Rc::new(binding),
            width,
            height,
            layers: 1,
        }
    }

    /// Build a stacked-array sampled texture from equally-sized images,
    /// uploading all layers in input order. Rejects an empty list, more
    /// layers than the 16-bit layer count can hold, and layers whose
    /// dimensions differ from the first layer's.
    pub fn new_array<P: Pipeline<B>>(
        device: &wgpu::Device,
        queue: &wgpu::Queue,
        pipeline: &P,
        layers: &Vec<PixelImage>,
    ) -> (r: Result<Texture<B>, TextureArrayError>)
        requires
            forall|i: int| 0 <= i < layers@.len() ==> (#[trigger] layers@[i]).wf(),
            layers@.len() <= gpu::MAX_TEXTURE_LAYERS,
            layers@.len() >= 1 ==> 0 < layers@[0].spec_width() <= gpu::MAX_TEXTURE_SIDE && 0
                < layers@[0].spec_height() <= gpu::MAX_TEXTURE_SIDE,
        ensures
            r matches Ok(t) <==> (1 <= layers@.len() <= 0xffff && forall|i: int|
                0 <= i < layers@.len() ==> (#[trigger] layers@[i]).spec_width()
                    == layers@[0].spec_width() && layers@[i].spec_height()
                    == layers@[0].spec_height()),
            r matches Ok(t) ==> t.wf() && t.spec_width() == layers@[0].spec_width()
                && t.spec_height() == layers@[0].spec_height() && t.spec_layers()
                == layers@.len(),
            layers@.len() == 0 ==> r == Err::<Texture<B>, TextureArrayError>(
                TextureArrayError::EmptyArray,
            ),
            layers@.len() > 0xffff ==> r == Err::<Texture<B>, TextureArrayError>(
                TextureArrayError::TooManyLayers,
            ),
            1 <= layers@.len() <= 0xffff && (exists|i: int|
                0 <= i < layers@.len() && ((#[trigger] layers@[i]).spec_width()
                    != layers@[0].spec_width() || layers@[i].spec_height()
                    != layers@[0].spec_height())) ==> r == Err::<Texture<B>, TextureArrayError>(
                TextureArrayError::LayerSizeMismatch,
            ),
    {
        let (width, height, layer_count) = match array_layout(layers) {
            Ok(layout) => layout,
            Err(e) => {
                return Err(e);
            },
        };
        let (raw, view, binding) = create_texture_array(
            device,
            pipeline,
            width,
            height,
            Some((queue, layers)),
            TextureUsage::Sampled,
        );
        Ok(
            Texture {
                raw: Rc::new(raw),
                view: Rc::new(view),
                binding: Rc::new(binding),
                width,
                height,
                layers: layer_count,
            },
        )
    }
}

/// Allocate the texture resource, optionally upload the given layers
/// through a transient staging buffer and one submitted copy command, and
/// create the array view and the pipeline's binding for it.
pub(crate) fn create_texture_array<B, P: Pipeline<B>>(
    device: &wgpu::Device,
    pipeline: &P,
    width: u16,
    height: u16,
    upload: Option<(&wgpu::Queue, &Vec<PixelImage>)>,
    usage: TextureUsage,
) -> (r: (wgpu::Texture, wgpu::TextureView, B))
    requires
        0 < width <= gpu::MAX_TEXTURE_SIDE,
        0 < height <= gpu::MAX_TEXTURE_SIDE,
        upload is Some ==> usage is Sampled,
        upload matches Some(u) ==> 1 <= u.1@.len() <= gpu::MAX_TEXTURE_LAYERS && forall|i: int|
            0 <= i < u.1@.len() ==> (#[trigger] u.1@[i]).wf() && u.1@[i].spec_width() == width
                && u.1@[i].spec_height() == height,
    ensures
        gpu::texture_width(r.0) == width,
        gpu::texture_height(r.0) == height,
        upload matches Some(u) ==> gpu::texture_layer_count(r.0) == u.1@.len(),
        upload is None ==> gpu::texture_layer_count(r.0) == 1,
        gpu::texture_render_target(r.0) <==> usage is RenderTarget,
{
    let layer_count: u16 = match upload {
        Some(u) => u.1.len() as u16,
        None => 1,
    };
    let texture = gpu::create_texture(
        device,
        width as u32,
        height as u32,
        layer_count as u32,
        &usage,
    );
    if let Some((queue, layer_list)) = upload {
        let flat = flatten_layers(layer_list);
        proof {
            assert(layer_stride(layer_list@) == 4 * (width as int) * (height as int));
            assert(flat@.len() == 4 * (width as int) * (height as int) * (layer_count as int))
                by (nonlinear_arith)
                requires
                    flat@.len() == (layer_count as int) * (4 * (width as int) * (height as int)),
            ;
        }
        gpu::write_texture_layers(
            queue,
            &texture,
            &flat,
            width as u32,
            height as u32,
            layer_count as u32,
        );
    }
    let view = gpu::create_texture_view(&texture, layer_count as u32);
    let binding = pipeline.create_texture_binding(device, &view);
    (texture, view, binding)
}

} // verus!
