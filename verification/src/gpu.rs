//! The trusted boundary to the GPU API.
//!
//! Every GPU resource handle is opaque: nothing is proved about GPU-side
//! state. Each wrapper below makes one call into the GPU API and states only
//! what that call's documentation promises about host-visible values. The
//! two bodiless spec functions name what a staging buffer's handle records
//! about its allocation: its byte size and whether it is still an unmapped,
//! host-readable buffer.
//!
//! The GPU API validates resource creation immediately and recorded
//! commands when the encoder is finished; with wgpu's default error
//! handling a validation failure aborts the process. The `requires` below
//! therefore exclude every validation failure that host-side values can
//! cause: creation sizes are bounded by the limits of a default-limit
//! device, and copy row pitches must carry the 256-byte alignment the
//! copy commands demand. What remains (a lost device, a failed mapping)
//! surfaces as a failed readback.

use std::rc::Rc;
use std::sync::atomic::AtomicBool;
use std::sync::atomic::Ordering;
use std::sync::Arc;
use vstd::prelude::*;
use wgpu::Texture as WgpuTexture;

verus! {

/// The largest width or height of a 2D texture a default-limit device
/// accepts.
pub const MAX_TEXTURE_SIDE: u16 = 8192;

/// The largest array layer count a default-limit device accepts.
pub const MAX_TEXTURE_LAYERS: u16 = 256;

/// The largest buffer size, in bytes, a default-limit device accepts.
pub const MAX_BUFFER_BYTES: u64 = 0x10000000;

#[verifier::external_type_specification]
#[verifier::external_body]
pub struct ExDevice(wgpu::Device);

#[verifier::external_type_specification]
#[verifier::external_body]
pub struct ExQueue(wgpu::Queue);

#[verifier::external_type_specification]
#[verifier::external_body]
pub struct ExGpuTexture(WgpuTexture);

#[verifier::external_type_specification]
#[verifier::external_body]
pub struct ExTextureView(wgpu::TextureView);

#[verifier::external_type_specification]
#[verifier::external_body]
pub struct ExBuffer(wgpu::Buffer);

#[verifier::external_type_specification]
#[verifier::external_body]
pub struct ExCommandEncoder(wgpu::CommandEncoder);

#[verifier::external_type_specification]
#[verifier::external_body]
pub struct ExCommandBuffer(wgpu::CommandBuffer);

/// What a texture is created for: sampling by shaders after a one-shot
/// upload, or serving as a render target whose pixels can be copied out
/// and sampled.
#[derive(Clone, Copy, Debug, PartialEq, Eq, Structural)]
pub enum TextureUsage {
    Sampled,
    RenderTarget,
}

/// The width, in texels, a texture was created with: fixed per handle,
/// like every field of its creation descriptor.
pub uninterp spec fn texture_width(texture: WgpuTexture) -> u32;

/// The height, in texels, a texture was created with.
pub uninterp spec fn texture_height(texture: WgpuTexture) -> u32;

/// The array layer count a texture was created with.
pub uninterp spec fn texture_layer_count(texture: WgpuTexture) -> u32;

/// Whether a texture was created as a render target — with render and
/// copy-source usage — rather than as an upload destination for sampling.
/// The GPU API refuses to copy out of a texture without copy-source usage
/// and to write into one without copy-destination usage.
pub uninterp spec fn texture_render_target(texture: WgpuTexture) -> bool;

/// The byte size a buffer was allocated with. `wgpu::Buffer::size` always
/// returns the size given in the descriptor, so this is fixed per handle.
pub uninterp spec fn buffer_size(buffer: wgpu::Buffer) -> u64;

/// Whether a buffer was created unmapped and with host-read mapping usage,
/// so that one full-range read mapping may be requested on it.
pub uninterp spec fn readback_ready(buffer: wgpu::Buffer) -> bool;

/// Relies on `wgpu::Device::create_texture`: allocates a 2D array texture
/// with `layers` layers of `width` x `height` texels in the backend's fixed
/// BGRA format. Sampled textures are created as upload destinations; render
/// targets additionally allow copying their contents out. The dimension and
/// layer bounds keep the creation within a default-limit device's
/// `max_texture_dimension_2d` and `max_texture_array_layers`, whose
/// violation would be a fatal validation error.
#[verifier::external_body]
pub(crate) fn create_texture(
    device: &wgpu::Device,
    width: u32,
    height: u32,
    layers: u32,
    usage: &TextureUsage,
) -> (t: wgpu::Texture)
    requires
        0 < width <= MAX_TEXTURE_SIDE,
        0 < height <= MAX_TEXTURE_SIDE,
        0 < layers <= MAX_TEXTURE_LAYERS,
    ensures
        texture_width(t) == width,
        texture_height(t) == height,
        texture_layer_count(t) == layers,
        texture_render_target(t) <==> usage is RenderTarget,
{
    let usage_flags = match usage {
        TextureUsage::Sampled => wgpu::TextureUsages::COPY_DST | wgpu::TextureUsages::TEXTURE_BINDING,
        TextureUsage::RenderTarget => wgpu::TextureUsages::RENDER_ATTACHMENT
            | wgpu::TextureUsages::TEXTURE_BINDING | wgpu::TextureUsages::COPY_SRC,
    };
    device.create_texture(&wgpu::TextureDescriptor {
        label: None, mip_level_count: 1, sample_count: 1,
        size: wgpu::Extent3d { width, height, depth_or_array_layers: layers },
        dimension: wgpu::TextureDimension::D2, format: wgpu::TextureFormat::Bgra8UnormSrgb,
        usage: usage_flags, view_formats: &[],
    })
}

/// Relies on `wgpu::Texture::create_view`: a single 2D-array view spanning
/// all `layers` layers of the texture, in the texture's own format. The
/// view must cover exactly the texture's real layer count: a view over
/// more layers than the texture has would be a fatal validation error.
#[verifier::external_body]
pub(crate) fn create_texture_view(texture: &wgpu::Texture, layers: u32) -> wgpu::TextureView
    requires
        layers > 0,
        layers == texture_layer_count(*texture),
{
    texture.create_view(&wgpu::TextureViewDescriptor {
        label: None, format: Some(wgpu::TextureFormat::Bgra8UnormSrgb),
        dimension: Some(wgpu::TextureViewDimension::D2Array), usage: None,
        aspect: wgpu::TextureAspect::All, base_mip_level: 0, mip_level_count: Some(1),
        base_array_layer: 0, array_layer_count: Some(layers),
    })
}

/// Relies on `wgpu::Queue::write_texture`: stages the given bytes in a
/// transient upload buffer of the queue's own and enqueues one copy
/// covering all `layers` layers before the next submission, reading
/// tightly packed rows of `4 * width` bytes and `height` rows per layer —
/// this path, unlike an encoder copy, accepts an unaligned row pitch. The
/// write must target an upload-destination texture of exactly this extent
/// with at least this many bytes, else it would be a fatal validation
/// error; the byte count here covers the extent exactly.
#[verifier::external_body]
pub(crate) fn write_texture_layers(
    queue: &wgpu::Queue,
    texture: &wgpu::Texture,
    data: &Vec<u8>,
    width: u32,
    height: u32,
    layers: u32,
)
    requires
        0 < width <= MAX_TEXTURE_SIDE,
        0 < height <= MAX_TEXTURE_SIDE,
        0 < layers <= MAX_TEXTURE_LAYERS,
        width == texture_width(*texture),
        height == texture_height(*texture),
        layers == texture_layer_count(*texture),
        !texture_render_target(*texture),
        data@.len() == 4 * width * height * layers,
{
    queue.write_texture(
        wgpu::TexelCopyTextureInfo { texture, mip_level: 0, origin: wgpu::Origin3d::ZERO,
            aspect: wgpu::TextureAspect::All },
        &data[..],
        wgpu::TexelCopyBufferLayout {
            offset: 0, bytes_per_row: Some(4 * width), rows_per_image: Some(height) },
        wgpu::Extent3d { width, height, depth_or_array_layers: layers },
    );
}

/// Relies on `wgpu::CommandEncoder::copy_texture_to_buffer`: appends one
/// command copying layer 0, mip 0, the full `width` x `height` extent of
/// the texture into the buffer, one row every `bytes_per_row` bytes. An
/// encoder copy demands a copy-source texture of exactly this extent, a
/// row pitch aligned to 256 bytes and a buffer that holds all the rows;
/// each is a `requires` here, since its violation would be a fatal
/// validation error.
#[verifier::external_body]
pub(crate) fn encode_texture_to_buffer_copy(
    encoder: &mut wgpu::CommandEncoder,
    texture: &wgpu::Texture,
    buffer: &wgpu::Buffer,
    width: u32,
    height: u32,
    bytes_per_row: u32,
)
    requires
        0 < width <= MAX_TEXTURE_SIDE,
        0 < height <= MAX_TEXTURE_SIDE,
        width == texture_width(*texture),
        height == texture_height(*texture),
        texture_render_target(*texture),
        bytes_per_row % 256 == 0,
        4 * width <= bytes_per_row,
        (bytes_per_row as int) * ((height - 1) as int) + 4 * width <= buffer_size(*buffer),
{
    encoder.copy_texture_to_buffer(
        wgpu::TexelCopyTextureInfo { texture, mip_level: 0, origin: wgpu::Origin3d::ZERO,
            aspect: wgpu::TextureAspect::All },
        wgpu::TexelCopyBufferInfo { buffer, layout: wgpu::TexelCopyBufferLayout {
            offset: 0, bytes_per_row: Some(bytes_per_row), rows_per_image: Some(height) } },
        wgpu::Extent3d { width, height, depth_or_array_layers: 1 },
    );
}

/// Relies on `wgpu::CommandEncoder::finish`: seals the recorded commands
/// into a submittable command buffer. The recorded copies are validated
/// here; the copy wrappers' `requires` exclude every invalid copy that
/// host-side values can produce.
#[verifier::external_body]
pub(crate) fn finish_commands(encoder: wgpu::CommandEncoder) -> wgpu::CommandBuffer {
    encoder.finish()
}

/// Relies on `wgpu::Queue::submit`: submitted command buffers execute on the
/// GPU in submission order.
#[verifier::external_body]
pub(crate) fn submit_commands(queue: &wgpu::Queue, commands: wgpu::CommandBuffer) {
    let _ = queue.submit(Some(commands));
}

/// Relies on `wgpu::Device::create_buffer`: allocates a host-readable
/// staging buffer of exactly `size` bytes, created unmapped, with map-read
/// and copy-destination usage — the only usage a map-read buffer may
/// combine with on a default-feature device. `wgpu::Buffer::size` reports
/// the descriptor's size, so `buffer_size` of the result is `size`. The
/// size bound keeps the creation within a default-limit device's
/// `max_buffer_size`, whose violation would be a fatal validation error.
#[verifier::external_body]
pub(crate) fn create_readback_buffer(device: &wgpu::Device, size: u64) -> (buffer: wgpu::Buffer)
    requires
        size > 0,
        size % 4 == 0,
        size <= MAX_BUFFER_BYTES,
    ensures
        buffer_size(buffer) == size,
        readback_ready(buffer),
{
    device.create_buffer(&wgpu::BufferDescriptor {
        label: None, size, mapped_at_creation: false,
        usage: wgpu::BufferUsages::MAP_READ | wgpu::BufferUsages::COPY_DST,
    })
}

/// Relies on `wgpu::Buffer::map_async`, `wgpu::Device::poll` and
/// `wgpu::Buffer::get_mapped_range`: requests one read mapping of the whole
/// buffer, blocks until the device has run the one-shot completion callback,
/// and on success copies out the mapped bytes — the full range, so exactly
/// `wgpu::Buffer::size` of them. Any mapping failure yields `None`. The
/// buffer is consumed: it is single-use, and `map_async` must never see an
/// already-mapped buffer.
#[verifier::external_body]
pub(crate) fn map_read_all(device: &wgpu::Device, buffer: wgpu::Buffer) -> (r: Option<Vec<u8>>)
    requires
        buffer_size(buffer) > 0,
        buffer_size(buffer) % 4 == 0,
        readback_ready(buffer),
    ensures
        r matches Some(bytes) ==> bytes@.len() == buffer_size(buffer),
{
    let done: Arc<AtomicBool> = Arc::new(AtomicBool::new(false));
    let flag = Arc::clone(&done);
    buffer.map_async(wgpu::MapMode::Read, .., move |outcome| {
        flag.store(outcome.is_ok(), Ordering::SeqCst);
    });
    let _ = device.poll(wgpu::PollType::wait_indefinitely());
    if !done.load(Ordering::SeqCst) {
        return None;
    }
    match buffer.get_mapped_range(..) {
        Ok(view) => Some(view.to_vec()),
        Err(_) => None,
    }
}

/// Relies on `std::rc::Rc::clone`: the clone is a new counted handle to
/// the same allocation, so it dereferences to the same value, and the
/// allocation is freed only when the last handle is dropped. vstd gives
/// `Rc::clone` no specification of its own.
#[verifier::external_body]
pub(crate) fn rc_clone<T>(rc: &Rc<T>) -> (out: Rc<T>)
    ensures
        out == *rc,
{
    Rc::clone(rc)
}

} // verus!
