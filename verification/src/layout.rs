//! Sizing of the linear buffers that receive a copy of the picking texture.
//!
//! A texture-to-buffer copy wants every row of the image to start at a multiple
//! of a fixed alignment, so a row in the buffer may be wider than the tightly
//! packed pixels of that row. This module computes the padded row width and the
//! total size of such a buffer, and proves the arithmetic facts the rest of the
//! crate relies on.

use vstd::arithmetic::div_mod::{
    lemma_fundamental_div_mod, lemma_fundamental_div_mod_converse, lemma_mod_self_0,
    lemma_small_mod,
};
use vstd::arithmetic::mul::{lemma_mul_inequality, lemma_mul_is_commutative};
use vstd::prelude::*;

verus! {

/// Bytes of one pixel of the picking texture: four half-precision channels.
pub const BYTES_PER_PIXEL: u32 = 8;

/// The alignment, in bytes, of each row of a texture-to-buffer copy.
pub const ROW_ALIGNMENT: u32 = 256;

/// The widest texture whose padded row still fits the 32-bit row width of a copy.
pub const MAX_WIDTH: u32 = 536870880;

/// Bytes added to a row of `unpadded` bytes to reach the next multiple of `align`.
pub open spec fn row_padding(unpadded: nat, align: nat) -> nat {
    ((align - unpadded % align) % (align as int)) as nat
}

/// Width of a row of `unpadded` bytes once padded to a multiple of `align`.
pub open spec fn padded_row(unpadded: nat, align: nat) -> nat {
    unpadded + row_padding(unpadded, align)
}

/// Padded row width, in bytes, of a picking texture `width` pixels wide.
pub open spec fn row_stride(width: nat) -> nat {
    padded_row(width * (BYTES_PER_PIXEL as nat), ROW_ALIGNMENT as nat)
}

/// Size, in bytes, of a buffer that holds a picking texture of the given extent.
pub open spec fn total_bytes(width: nat, height: nat) -> nat {
    height * row_stride(width)
}

/// The extents a picking buffer can be laid out for.
pub open spec fn valid_extent(width: u32, height: u32) -> bool {
    0 < width <= MAX_WIDTH && 0 < height
}

/// The padded row is the least multiple of the alignment that holds the row.
pub proof fn lemma_padded_row(unpadded: nat, align: nat)
    requires
        align > 0,
    ensures
        padded_row(unpadded, align) >= unpadded,
        padded_row(unpadded, align) % align == 0,
        padded_row(unpadded, align) < unpadded + align,
        unpadded % align == 0 ==> padded_row(unpadded, align) == unpadded,
{
    let a = align as int;
    let u = unpadded as int;
    let r = u % a;
    let q = u / a;
    lemma_fundamental_div_mod(u, a);
    assert(0 <= r < a);
    if r == 0 {
        lemma_mod_self_0(a);
        assert(row_padding(unpadded, align) == 0);
    } else {
        lemma_small_mod((a - r) as nat, align);
        assert(row_padding(unpadded, align) == a - r);
        assert(u + (a - r) == a * (q + 1) + 0) by (nonlinear_arith)
            requires
                u == a * q + r,
        ;
        lemma_fundamental_div_mod_converse(u + (a - r), a, q + 1, 0);
    }
}

/// A wider row never pads to a narrower one.
pub proof fn lemma_padded_row_monotonic(a: nat, b: nat, align: nat)
    requires
        align > 0,
        a <= b,
    ensures
        padded_row(a, align) <= padded_row(b, align),
{
    lemma_padded_row(a, align);
    lemma_padded_row(b, align);
    let n = align as int;
    let pa = padded_row(a, align) as int;
    let pb = padded_row(b, align) as int;
    lemma_fundamental_div_mod(pa, n);
    lemma_fundamental_div_mod(pb, n);
    if pb < pa {
        // Two multiples of `n` with `pb < pa` lie at least `n` apart, yet
        // `pa < a + n <= b + n <= pb + n`.
        assert(pa / n > pb / n) by (nonlinear_arith)
            requires
                pa == n * (pa / n),
                pb == n * (pb / n),
                pb < pa,
                n > 0,
        ;
        assert(pa >= pb + n) by (nonlinear_arith)
            requires
                pa == n * (pa / n),
                pb == n * (pb / n),
                pa / n >= pb / n + 1,
                n > 0,
        ;
    }
}

/// The row stride holds the packed pixels of a row, is a multiple of the
/// alignment, and the buffer is `height` such rows.
pub proof fn lemma_row_stride(width: nat, height: nat)
    ensures
        row_stride(width) >= width * (BYTES_PER_PIXEL as nat),
        row_stride(width) % (ROW_ALIGNMENT as nat) == 0,
        row_stride(width) < width * (BYTES_PER_PIXEL as nat) + (ROW_ALIGNMENT as nat),
        total_bytes(width, height) == height * row_stride(width),
        total_bytes(width, height) >= height * width * (BYTES_PER_PIXEL as nat),
{
    let packed = width * (BYTES_PER_PIXEL as nat);
    lemma_padded_row(packed, ROW_ALIGNMENT as nat);
    lemma_mul_inequality(packed as int, row_stride(width) as int, height as int);
    lemma_mul_is_commutative(packed as int, height as int);
    lemma_mul_is_commutative(row_stride(width) as int, height as int);
    assert(height * width * (BYTES_PER_PIXEL as nat) == height * packed) by (nonlinear_arith)
        requires
            packed == width * (BYTES_PER_PIXEL as nat),
    ;
}

/// The row stride does not decrease as the texture gets wider.
pub proof fn lemma_row_stride_monotonic(narrow: nat, wide: nat)
    requires
        narrow <= wide,
    ensures
        row_stride(narrow) <= row_stride(wide),
{
    lemma_padded_row_monotonic(
        narrow * (BYTES_PER_PIXEL as nat),
        wide * (BYTES_PER_PIXEL as nat),
        ROW_ALIGNMENT as nat,
    );
}

/// A texture is in range exactly when its padded row fits in 32 bits.
pub proof fn lemma_max_width(width: nat)
    ensures
        width <= MAX_WIDTH <==> row_stride(width) <= u32::MAX,
{
    lemma_row_stride(width, 1);
    lemma_row_stride(MAX_WIDTH as nat, 1);
    if width <= MAX_WIDTH {
        lemma_row_stride_monotonic(width, MAX_WIDTH as nat);
    }
    assert(row_stride(MAX_WIDTH as nat) == 4294967040);
}

/// Width and height of a texture or viewport, in physical pixels.
#[derive(Clone, Copy, Debug, PartialEq, Eq, Structural)]
pub struct TextureSize {
    pub x: u32,
    pub y: u32,
}

/// Why a picking buffer cannot be laid out for an extent.
#[derive(Clone, Copy, Debug, PartialEq, Eq, Structural)]
pub enum LayoutError {
    /// The width or the height is zero.
    ZeroSized,
    /// A padded row would not fit the 32-bit row width of a copy.
    TooWide,
}

/// The alignment `wgpu` demands of the rows of a texture-to-buffer copy
/// (`wgpu::COPY_BYTES_PER_ROW_ALIGNMENT`), which its source fixes at 256.
#[verifier::external_body]
fn copy_row_alignment() -> (align: u32)
    ensures
        align == ROW_ALIGNMENT,
{
    wgpu::COPY_BYTES_PER_ROW_ALIGNMENT
}

/// The size `wgpu` gives for one texel of the picking texture format
/// (`TextureFormat::block_copy_size` of `Rgba16Float`, asked without an aspect),
/// which its source fixes at eight bytes.
#[verifier::external_body]
fn picking_texel_size() -> (size: Option<u32>)
    ensures
        size == Some(BYTES_PER_PIXEL),
{
    wgpu::TextureFormat::Rgba16Float.block_copy_size(None)
}

/// Pads a row of `unpadded` bytes to the next multiple of `align`.
///
/// Returns `None` when `align` is zero or the padded width exceeds `u64::MAX`.
pub fn padded_bytes_per_row(unpadded: u64, align: u64) -> (padded: Option<u64>)
    ensures
        padded matches Some(p) ==> p == padded_row(unpadded as nat, align as nat),
        padded is Some <==> align > 0 && padded_row(unpadded as nat, align as nat) <= u64::MAX,
{
    if align == 0 {
        return None;
    }
    let padding = (align - unpadded % align) % align;
    unpadded.checked_add(padding)
}

/// The layout of a picking buffer: the extent of the texture it mirrors and the
/// padded width of one row.
#[derive(Clone, Copy, Debug)]
pub struct PickingBufferSize {
    texture_size: TextureSize,
    padded_bytes_per_row: u32,
}

impl View for PickingBufferSize {
    type V = TextureSize;

    /// A layout is determined by the extent it was made for.
    closed spec fn view(&self) -> TextureSize {
        self.texture_size
    }
}

impl PickingBufferSize {
    #[verifier::type_invariant]
    spec fn well_formed(self) -> bool {
        &&& valid_extent(self.texture_size.x, self.texture_size.y)
        &&& self.padded_bytes_per_row == row_stride(self.texture_size.x as nat)
    }

    /// The padded row width of this layout.
    pub closed spec fn spec_padded_bytes_per_row(self) -> nat {
        self.padded_bytes_per_row as nat
    }

    /// The layout of a picking buffer for a texture of `width` by `height`
    /// pixels.
    pub closed spec fn layout_for(width: u32, height: u32) -> PickingBufferSize {
        PickingBufferSize {
            texture_size: TextureSize { x: width, y: height },
            padded_bytes_per_row: row_stride(width as nat) as u32,
        }
    }

    /// What a layout holds: the extent it was made for and the stride of its
    /// width.
    pub proof fn lemma_layout_for(width: u32, height: u32)
        ensures
            Self::layout_for(width, height)@ == (TextureSize { x: width, y: height }),
            width <= MAX_WIDTH ==> Self::layout_for(width, height).spec_padded_bytes_per_row()
                == row_stride(width as nat),
    {
        lemma_max_width(width as nat);
    }

    /// Two layouts are the same exactly when they were made for the same
    /// extent.
    pub proof fn lemma_layout_determined(a: TextureSize, b: TextureSize)
        ensures
            Self::layout_for(a.x, a.y) == Self::layout_for(b.x, b.y) <==> a == b,
    {
    }

    /// Lays out a picking buffer for a texture of `width` by `height` pixels.
    pub fn new(width: u32, height: u32) -> (layout: Result<PickingBufferSize, LayoutError>)
        ensures
            valid_extent(width, height) ==> layout == Ok::<PickingBufferSize, LayoutError>(
                Self::layout_for(width, height),
            ),
            layout matches Ok(size) ==> size@ == (TextureSize { x: width, y: height })
                && size.spec_padded_bytes_per_row() == row_stride(width as nat),
            width == 0 || height == 0 ==> layout == Err::<PickingBufferSize, LayoutError>(
                LayoutError::ZeroSized,
            ),
            width > MAX_WIDTH && height > 0 ==> layout == Err::<PickingBufferSize, LayoutError>(
                LayoutError::TooWide,
            ),
    {
        if width == 0 || height == 0 {
            return Err(LayoutError::ZeroSized);
        }
        let bytes_per_pixel = picking_texel_size().unwrap();
        let align = copy_row_alignment();
        assert(bytes_per_pixel == 8 && align == 256);
        assert(width * bytes_per_pixel == 8 * width) by (nonlinear_arith)
            requires
                bytes_per_pixel == 8,
        ;
        let unpadded_bytes_per_row: u64 = width as u64 * bytes_per_pixel as u64;
        proof {
            lemma_max_width(width as nat);
            lemma_row_stride(width as nat, height as nat);
        }
        match padded_bytes_per_row(unpadded_bytes_per_row, align as u64) {
            Some(padded) if padded <= u32::MAX as u64 => Ok(
                PickingBufferSize {
                    texture_size: TextureSize { x: width, y: height },
                    padded_bytes_per_row: padded as u32,
                },
            ),
            _ => Err(LayoutError::TooWide),
        }
    }

    /// The extent of the texture this layout mirrors.
    pub fn texture_size(&self) -> (size: TextureSize)
        ensures
            size == self@,
            valid_extent(size.x, size.y),
            *self == Self::layout_for(size.x, size.y),
    {
        proof {
            use_type_invariant(self);
        }
        self.texture_size
    }

    /// The padded width, in bytes, of one row of the buffer.
    pub fn padded_bytes_per_row(&self) -> (stride: u32)
        ensures
            stride == row_stride(self@.x as nat),
            stride == self.spec_padded_bytes_per_row(),
    {
        proof {
            use_type_invariant(self);
        }
        self.padded_bytes_per_row
    }

    /// The size, in bytes, of a buffer with this layout.
    pub fn total_needed_bytes(&self) -> (bytes: u64)
        ensures
            bytes == total_bytes(self@.x as nat, self@.y as nat),
    {
        proof {
            use_type_invariant(self);
            assert(self.texture_size.y * self.padded_bytes_per_row <= u64::MAX) by (nonlinear_arith)
                requires
                    self.texture_size.y <= u32::MAX,
                    self.padded_bytes_per_row <= u32::MAX,
            ;
        }
        self.texture_size.y as u64 * self.padded_bytes_per_row as u64
    }

    /// Whether two layouts are the same.
    pub fn same_as(&self, other: &PickingBufferSize) -> (same: bool)
        ensures
            same <==> self@ == other@,
            same <==> *self == *other,
    {
        proof {
            use_type_invariant(self);
            use_type_invariant(other);
        }
        self.texture_size.x == other.texture_size.x && self.texture_size.y == other.texture_size.y
    }
}

} // verus!
