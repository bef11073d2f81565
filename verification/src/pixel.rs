//! CPU-side pixel buffers in the backend's fixed byte layout.
//!
//! Every image that crosses between host memory and the GPU is stored as
//! width x height pixels of 4 bytes each, in the order B, G, R, A, row-major,
//! with no padding between rows: a row occupies exactly `4 * width` bytes.

use vstd::prelude::*;

verus! {

/// One pixel in the fixed byte layout. The field order matches the byte
/// order inside a [`PixelImage`]: blue, green, red, alpha.
#[derive(Clone, Copy, Debug, PartialEq, Eq, Structural)]
pub struct Bgra {
    pub b: u8,
    pub g: u8,
    pub r: u8,
    pub a: u8,
}

/// The channel of `color` that byte `i % 4` of a pixel holds.
pub open spec fn channel(color: Bgra, i: int) -> u8 {
    if i % 4 == 0 {
        color.b
    } else if i % 4 == 1 {
        color.g
    } else if i % 4 == 2 {
        color.r
    } else {
        color.a
    }
}

/// The pixel that starts at byte `4 * (y * width + x)` of `bytes`.
pub open spec fn pixel_at(bytes: Seq<u8>, width: int, x: int, y: int) -> Bgra {
    let i = 4 * (y * width + x);
    Bgra { b: bytes[i], g: bytes[i + 1], r: bytes[i + 2], a: bytes[i + 3] }
}

/// A decoded image: `width * height` pixels of 4 bytes each in B, G, R, A
/// order, row-major, with no padding between rows.
pub struct PixelImage {
    width: u16,
    height: u16,
    bytes: Vec<u8>,
}

/// Ways a byte buffer can fail to form a valid image.
#[derive(Clone, Copy, Debug, PartialEq, Eq, Structural)]
pub enum PixelFormatError {
    /// The buffer does not hold exactly `4 * width * height` bytes.
    ByteCountMismatch,
}

/// Where byte `i` of a 4-byte pixel group comes from when the first and
/// third channel of the group are exchanged: bytes 0 and 2 swap places,
/// bytes 1 and 3 stay.
pub open spec fn swap_index(i: int) -> int {
    if i % 4 == 0 {
        i + 2
    } else if i % 4 == 2 {
        i - 2
    } else {
        i
    }
}

/// `bytes` with the first and third channel of every 4-byte pixel group
/// exchanged. Applied to R, G, B, A data it yields B, G, R, A data and the
/// other way round.
pub open spec fn swap_rb(bytes: Seq<u8>) -> Seq<u8> {
    Seq::new(bytes.len(), |i: int| bytes[swap_index(i)])
}

/// The byte sequence of a `width` x `height` image whose every pixel is
/// `color`.
pub open spec fn solid_bytes(width: int, height: int, color: Bgra) -> Seq<u8> {
    Seq::new((4 * width * height) as nat, |i: int| channel(color, i))
}

/// The byte count of an image is at most `4 * 65535 * 65535`, so it always
/// fits in a `u64`.
pub proof fn lemma_byte_count_bound(width: u16, height: u16)
    ensures
        0 <= 4 * (width as int) * (height as int) <= 0x3fffc0004,
{
    assert(4 * (width as int) * (height as int) <= 0x3fffc0004) by (nonlinear_arith)
        requires
            0 <= width <= 0xffff,
            0 <= height <= 0xffff,
    ;
    assert(0 <= 4 * (width as int) * (height as int)) by (nonlinear_arith)
        requires
            0 <= width,
            0 <= height,
    ;
}

/// An image's byte count is a multiple of 4.
pub proof fn lemma_image_len_mod4(width: int, height: int)
    ensures
        (4 * width * height) % 4 == 0,
{
    vstd::arithmetic::div_mod::lemma_mod_multiples_basic(width * height, 4);
    assert(4 * width * height == (width * height) * 4) by (nonlinear_arith);
}

/// The first byte of the pixel at `(x, y)` lies at a multiple of 4, and the
/// pixel's four bytes fit inside a `width` x `height` image.
pub proof fn lemma_pixel_index_bound(width: int, height: int, x: int, y: int)
    requires
        0 <= x < width,
        0 <= y < height,
    ensures
        0 <= 4 * (y * width + x),
        4 * (y * width + x) + 4 <= 4 * width * height,
        (4 * (y * width + x)) % 4 == 0,
{
    assert(0 <= 4 * (y * width + x) && 4 * (y * width + x) + 4 <= 4 * width * height) by (nonlinear_arith)
        requires
            0 <= x < width,
            0 <= y < height,
    ;
    assert((4 * (y * width + x)) % 4 == 0) by (nonlinear_arith)
        requires
            0 <= y * width + x,
    ;
}

/// Between a multiple of 4 and a larger length that is itself a multiple of
/// 4 there is room for a whole 4-byte group.
pub proof fn lemma_group_fits(i: int, len: int)
    requires
        0 <= i < len,
        i % 4 == 0,
        len % 4 == 0,
    ensures
        i + 4 <= len,
{
    assert(i + 4 <= len) by (nonlinear_arith)
        requires
            0 <= i < len,
            i % 4 == 0,
            len % 4 == 0,
    ;
}

/// Law: in a solid image every pixel reads back as the fill color.
pub proof fn lemma_solid_pixels(width: int, height: int, color: Bgra, x: int, y: int)
    requires
        0 <= x < width,
        0 <= y < height,
    ensures
        pixel_at(solid_bytes(width, height, color), width, x, y) == color,
{
    lemma_pixel_index_bound(width, height, x, y);
    let i = 4 * (y * width + x);
    assert((i + 1) % 4 == 1 && (i + 2) % 4 == 2 && (i + 3) % 4 == 3) by (nonlinear_arith)
        requires
            i % 4 == 0,
            0 <= i,
    ;
}

/// Exchanging the first and third channel of every pixel twice gives the
/// original bytes back.
pub proof fn lemma_swap_rb_involution(bytes: Seq<u8>)
    requires
        bytes.len() % 4 == 0,
    ensures
        swap_rb(swap_rb(bytes)) == bytes,
{
    let len = bytes.len() as int;
    assert forall|i: int| 0 <= i < len implies swap_rb(swap_rb(bytes))[i] == bytes[i] by {
        if i % 4 == 0 {
            lemma_group_fits(i, len);
        }
        assert(swap_index(swap_index(i)) == i);
        assert(0 <= swap_index(i) < len);
    }
    assert(swap_rb(swap_rb(bytes)) =~= bytes);
}

/// Exchange the first and third byte of every 4-byte pixel group.
fn swap_rb_bytes(bytes: &Vec<u8>) -> (out: Vec<u8>)
    requires
        bytes@.len() % 4 == 0,
    ensures
        out@ == swap_rb(bytes@),
{
    let mut out: Vec<u8> = Vec::new();
    let mut p: usize = 0;
    while p < bytes.len()
        invariant
            0 <= p <= bytes@.len(),
            p % 4 == 0,
            bytes@.len() % 4 == 0,
            out@.len() == p,
            forall|j: int| 0 <= j < p ==> out@[j] == swap_rb(bytes@)[j],
        decreases bytes@.len() - p,
    {
        proof {
            lemma_group_fits(p as int, bytes@.len() as int);
            assert((p + 1) % 4 == 1 && (p + 2) % 4 == 2 && (p + 3) % 4 == 3 && (p + 4) % 4
                == 0) by (nonlinear_arith)
                requires
                    p % 4 == 0,
                    0 <= p,
            ;
        }
        out.push(bytes[p + 2]);
        out.push(bytes[p + 1]);
        out.push(bytes[p]);
        out.push(bytes[p + 3]);
        p = p + 4;
    }
    proof {
        assert(out@ =~= swap_rb(bytes@));
    }
    out
}

impl Clone for PixelImage {
    /// A clone is a fresh copy of the same pixels.
    fn clone(&self) -> (res: Self)
        ensures
            res.spec_width() == self.spec_width(),
            res.spec_height() == self.spec_height(),
            res.spec_bytes() == self.spec_bytes(),
    {
        let mut bytes: Vec<u8> = Vec::new();
        let mut i: usize = 0;
        while i < self.bytes.len()
            invariant
                0 <= i <= self.bytes@.len(),
                bytes@ == self.bytes@.subrange(0, i as int),
            decreases self.bytes@.len() - i,
        {
            bytes.push(self.bytes[i]);
            proof {
                assert(bytes@ =~= self.bytes@.subrange(0, i + 1));
            }
            i = i + 1;
        }
        proof {
            assert(bytes@ =~= self.bytes@);
        }
        PixelImage { width: self.width, height: self.height, bytes }
    }
}

impl PixelImage {
    /// Width in pixels, fixed at construction.
    pub closed spec fn spec_width(&self) -> u16 {
        self.width
    }

    /// Height in pixels, fixed at construction.
    pub closed spec fn spec_height(&self) -> u16 {
        self.height
    }

    /// The raw bytes, in the fixed B, G, R, A layout.
    pub closed spec fn spec_bytes(&self) -> Seq<u8> {
        self.bytes@
    }

    /// Well-formedness: the byte count agrees exactly with the dimensions.
    pub open spec fn wf(&self) -> bool {
        self.spec_bytes().len() == 4 * (self.spec_width() as int) * (self.spec_height() as int)
    }

    /// The pixel at column `x`, row `y`.
    pub open spec fn spec_pixel(&self, x: int, y: int) -> Bgra {
        pixel_at(self.spec_bytes(), self.spec_width() as int, x, y)
    }

    pub fn width(&self) -> (w: u16)
        ensures
            w == self.spec_width(),
    {
        self.width
    }

    pub fn height(&self) -> (h: u16)
        ensures
            h == self.spec_height(),
    {
        self.height
    }

    /// Borrow the underlying bytes.
    pub fn bytes(&self) -> (b: &Vec<u8>)
        ensures
            b@ == self.spec_bytes(),
    {
        &self.bytes
    }

    /// Give up the image and keep only its bytes.
    pub fn into_bytes(self) -> (b: Vec<u8>)
        ensures
            b@ == self.spec_bytes(),
    {
        self.bytes
    }

    /// Convert a buffer of R, G, B, A bytes into an image in the fixed
    /// B, G, R, A layout. Succeeds exactly when the buffer holds
    /// `4 * width * height` bytes.
    pub fn from_rgba_bytes(width: u16, height: u16, rgba: &Vec<u8>) -> (r: Result<
        PixelImage,
        PixelFormatError,
    >)
        ensures
            r matches Ok(img) <==> rgba@.len() == 4 * (width as int) * (height as int),
            r matches Ok(img) ==> img.wf() && img.spec_width() == width && img.spec_height()
                == height && img.spec_bytes() == swap_rb(rgba@),
            r matches Err(e) ==> e == PixelFormatError::ByteCountMismatch,
    {
        proof {
            lemma_byte_count_bound(width, height);
        }
        let expected: u64 = 4 * (width as u64) * (height as u64);
        if (rgba.len() as u64) != expected {
            return Err(PixelFormatError::ByteCountMismatch);
        }
        proof {
            lemma_image_len_mod4(width as int, height as int);
        }
        let bytes = swap_rb_bytes(rgba);
        Ok(PixelImage { width, height, bytes })
    }

    /// The image's bytes reordered into R, G, B, A, the layout image
    /// decoders and encoders commonly exchange.
    pub fn to_rgba_bytes(&self) -> (r: Vec<u8>)
        requires
            self.wf(),
        ensures
            r@ == swap_rb(self.spec_bytes()),
    {
        proof {
            lemma_image_len_mod4(self.spec_width() as int, self.spec_height() as int);
        }
        swap_rb_bytes(&self.bytes)
    }

    /// A `width` x `height` image whose every pixel is `color`.
    pub fn solid(width: u16, height: u16, color: Bgra) -> (img: PixelImage)
        ensures
            img.wf(),
            img.spec_width() == width,
            img.spec_height() == height,
            img.spec_bytes() == solid_bytes(width as int, height as int, color),
    {
        proof {
            lemma_byte_count_bound(width, height);
            lemma_image_len_mod4(width as int, height as int);
        }
        let total: u64 = 4 * (width as u64) * (height as u64);
        let mut bytes: Vec<u8> = Vec::new();
        let mut i: u64 = 0;
        while i < total
            invariant
                0 <= i <= total,
                i % 4 == 0,
                total % 4 == 0,
                total == 4 * (width as int) * (height as int),
                bytes@.len() == i,
                forall|j: int| 0 <= j < i ==> bytes@[j] == channel(color, j),
            decreases total - i,
        {
            proof {
                lemma_group_fits(i as int, total as int);
                assert((i + 1) % 4 == 1 && (i + 2) % 4 == 2 && (i + 3) % 4 == 3 && (i + 4) % 4
                    == 0) by (nonlinear_arith)
                    requires
                        i % 4 == 0,
                        0 <= i,
                ;
            }
            bytes.push(color.b);
            bytes.push(color.g);
            bytes.push(color.r);
            bytes.push(color.a);
            i = i + 4;
        }
        proof {
            assert(bytes@ =~= solid_bytes(width as int, height as int, color));
        }
        PixelImage { width, height, bytes }
    }

    /// Read the pixel at column `x`, row `y`.
    pub fn pixel(&self, x: u16, y: u16) -> (c: Bgra)
        requires
            self.wf(),
            x < self.spec_width(),
            y < self.spec_height(),
        ensures
            c == self.spec_pixel(x as int, y as int),
    {
        proof {
            lemma_pixel_index_bound(
                self.spec_width() as int,
                self.spec_height() as int,
                x as int,
                y as int,
            );
            assert((y as int) * (self.spec_width() as int) + (x as int) <= 0xffff * 0xffff
                + 0xffff) by (nonlinear_arith)
                requires
                    0 <= y <= 0xffff,
                    0 <= x <= 0xffff,
                    0 <= self.spec_width() <= 0xffff,
            ;
        }
        let len = self.bytes.len();
        let start: u64 = 4 * ((y as u64) * (self.width as u64) + (x as u64));
        assert(start + 4 <= len);
        let i = start as usize;
        Bgra {
            b: self.bytes[i],
            g: self.bytes[i + 1],
            r: self.bytes[i + 2],
            a: self.bytes[i + 3],
        }
    }

    /// Wrap a byte buffer that is already in the fixed B, G, R, A layout.
    /// Succeeds exactly when the buffer holds `4 * width * height` bytes.
    pub fn from_bytes(width: u16, height: u16, bytes: Vec<u8>) -> (r: Result<
        PixelImage,
        PixelFormatError,
    >)
        ensures
            r matches Ok(img) <==> bytes@.len() == 4 * (width as int) * (height as int),
            r matches Ok(img) ==> img.wf() && img.spec_width() == width && img.spec_height()
                == height && img.spec_bytes() == bytes@,
            r matches Err(e) ==> e == PixelFormatError::ByteCountMismatch,
    {
        proof {
            lemma_byte_count_bound(width, height);
        }
        let expected: u64 = 4 * (width as u64) * (height as u64);
        if (bytes.len() as u64) == expected {
            Ok(PixelImage { width, height, bytes })
        } else {
            Err(PixelFormatError::ByteCountMismatch)
        }
    }
}

} // verus!
