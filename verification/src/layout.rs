//! Row-stride arithmetic for GPU texture-to-buffer copies.
//!
//! The transfer queue only accepts copies whose per-row byte stride is a
//! multiple of a fixed alignment, so every host-readable copy of a texture is
//! row padded: each row occupies the unpadded pixel bytes followed by filler
//! up to the aligned stride.

use vstd::prelude::*;

verus! {

/// Required alignment, in bytes, of the row stride of any texture-to-buffer
/// copy (the device's copy alignment).
pub const COPY_ROW_ALIGNMENT: u32 = 256;

/// Bytes per pixel of the compute kernel's output texture: four 16-bit
/// float channels.
pub const OUTPUT_BYTES_PER_PIXEL: u32 = 8;

/// Bytes per pixel of the offline render target: four 32-bit float channels.
pub const EXPORT_BYTES_PER_PIXEL: usize = 16;

/// `bytes` rounded up to the next multiple of `align`: the stride actually
/// used for one row of a host-readable copy.
pub open spec fn padded_row_stride(bytes: int, align: int) -> int {
    bytes + ((align - bytes % align) % align)
}

/// The padded stride is the least multiple of `align` that is at least
/// `bytes`.
pub proof fn lemma_padded_row_stride(bytes: int, align: int)
    requires
        bytes >= 0,
        align > 0,
    ensures
        padded_row_stride(bytes, align) % align == 0,
        bytes <= padded_row_stride(bytes, align) < bytes + align,
{
    let r = bytes % align;
    assert(0 <= bytes % align < align) by (nonlinear_arith)
        requires
            align > 0,
    ;
    assert(align % align == 0) by (nonlinear_arith)
        requires
            align > 0,
    ;
    if r == 0 {
        assert(padded_row_stride(bytes, align) == bytes);
    } else {
        let q = bytes / align;
        vstd::arithmetic::div_mod::lemma_fundamental_div_mod(bytes, align);
        assert((align - r) % align == align - r) by (nonlinear_arith)
            requires
                0 < align - r < align,
        ;
        assert(align * q + r + (align - r) == align * (q + 1)) by (nonlinear_arith);
        assert(padded_row_stride(bytes, align) == align * (q + 1));
        assert((align * (q + 1)) % align == 0) by (nonlinear_arith)
            requires
                align > 0,
        ;
    }
}

/// Row stride, in bytes, of a copy of the kernel's output texture at the
/// given width: the unpadded row byte count rounded up to the copy alignment.
pub fn get_bytes_per_row_from_width(width: u32) -> (stride: u32)
    requires
        8 * width + 255 <= u32::MAX,
    ensures
        stride == padded_row_stride(8 * width, COPY_ROW_ALIGNMENT as int),
        stride % 256 == 0,
        8 * width <= stride < 8 * width + 256,
{
    proof {
        lemma_padded_row_stride(8 * width, COPY_ROW_ALIGNMENT as int);
    }
    let unpadded: u32 = OUTPUT_BYTES_PER_PIXEL * width;
    let rem: u32 = unpadded % COPY_ROW_ALIGNMENT;
    if rem == 0 {
        unpadded
    } else {
        unpadded + (COPY_ROW_ALIGNMENT - rem)
    }
}

/// The sizing of one host-readable, row-padded copy of a texture: its pixel
/// dimensions and the unpadded and padded byte counts of one row.
#[derive(Clone, Copy)]
pub struct BufferDimensions {
    pub width: usize,
    pub height: usize,
    pub unpadded_bytes_per_row: usize,
    pub padded_bytes_per_row: usize,
}

/// A well-formed sizing: rows hold `width` pixels of 16 bytes each and the
/// padded stride is the copy-aligned round-up of the unpadded row.
pub open spec fn dims_wf(d: BufferDimensions) -> bool {
    &&& d.unpadded_bytes_per_row == d.width * 16
    &&& d.padded_bytes_per_row == padded_row_stride(d.unpadded_bytes_per_row as int, 256)
}

/// Sizes a host-readable copy of the kernel's `width` x `height` output
/// texture: 8-byte pixels at the copy-aligned row stride. This is the shape
/// of the accumulation buffer an export reads back.
pub fn accumulation_dimensions(width: u32, height: u32) -> (d: BufferDimensions)
    requires
        8 * width + 255 <= u32::MAX,
    ensures
        d.width == width,
        d.height == height,
        d.unpadded_bytes_per_row == 8 * width,
        d.padded_bytes_per_row == padded_row_stride(8 * width, 256),
        d.unpadded_bytes_per_row <= d.padded_bytes_per_row,
{
    proof {
        lemma_padded_row_stride(8 * width, 256);
    }
    let stride = get_bytes_per_row_from_width(width);
    BufferDimensions {
        width: width as usize,
        height: height as usize,
        unpadded_bytes_per_row: 8 * (width as usize),
        padded_bytes_per_row: stride as usize,
    }
}

impl BufferDimensions {
    /// Sizes a host-readable copy of a `width` x `height` texture of
    /// 16-byte pixels.
    pub fn new(width: usize, height: usize) -> (d: BufferDimensions)
        requires
            width * 16 + 255 <= usize::MAX,
        ensures
            dims_wf(d),
            d.width == width,
            d.height == height,
            d.padded_bytes_per_row % 256 == 0,
            width * 16 <= d.padded_bytes_per_row < width * 16 + 256,
    {
        proof {
            lemma_padded_row_stride(width * 16, 256);
        }
        let bytes_per_pixel: usize = EXPORT_BYTES_PER_PIXEL;
        let unpadded_bytes_per_row: usize = width * bytes_per_pixel;
        let align: usize = COPY_ROW_ALIGNMENT as usize;
        let padded_bytes_per_row_padding: usize = (align - unpadded_bytes_per_row % align) % align;
        let padded_bytes_per_row: usize = unpadded_bytes_per_row + padded_bytes_per_row_padding;
        BufferDimensions {
            width,
            height,
            unpadded_bytes_per_row,
            padded_bytes_per_row,
        }
    }
}

} // verus!
