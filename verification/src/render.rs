//! Which buffer of a surface is shown, and how its shared-memory contents
//! are described to the toolkit as a texture.

use vstd::prelude::*;

verus! {

/// The buffer state of a surface, as the compositor records it.
pub enum BufferAssignment<B> {
    /// The surface has no buffer any more.
    Removed,
    /// A new buffer has been attached.
    NewBuffer(B),
}

/// The buffer shown for a surface: the one attached to it, if any.
pub fn assigned_buffer<B>(assignment: Option<BufferAssignment<B>>) -> (buffer: Option<B>)
    ensures
        match assignment {
            Some(BufferAssignment::NewBuffer(attached)) => buffer == Some(attached),
            _ => buffer is None,
        },
{
    match assignment {
        Some(BufferAssignment::NewBuffer(attached)) => Some(attached),
        _ => None,
    }
}

/// Pixel formats of the textures handed to the toolkit.
#[derive(Clone, Copy, PartialEq, Eq, Structural, Debug)]
pub enum PixelFormat {
    /// Blue, green, red, alpha, one byte each: how the toolkit reads a
    /// little-endian ARGB8888 shared-memory buffer.
    B8g8r8a8,
}

/// How the bytes of a buffer form a texture.
#[derive(Clone, Copy, PartialEq, Eq, Structural, Debug)]
pub struct TextureLayout {
    pub width: i32,
    pub height: i32,
    /// Bytes from the start of one row to the start of the next.
    pub stride: usize,
    pub format: PixelFormat,
}

/// The texture layout of a shared-memory buffer of the given width, height
/// and stride.
pub fn texture_layout(width: i32, height: i32, stride: i32) -> (layout: TextureLayout)
    ensures
        layout.width == width,
        layout.height == height,
        layout.stride == stride as usize,
        layout.format == PixelFormat::B8g8r8a8,
{
    TextureLayout { width, height, stride: stride as usize, format: PixelFormat::B8g8r8a8 }
}

/// The bytes of the pool that hold a buffer starting at `offset` with
/// `height` rows of `stride` bytes, when they lie within a pool of
/// `pool_len` bytes.
pub open spec fn buffer_fits(offset: i32, stride: i32, height: i32, pool_len: usize) -> bool {
    0 <= offset && 0 <= stride && 0 <= height && offset + stride * height <= pool_len
}

/// A buffer is shown exactly when its offset, stride and height are not
/// negative and its last row ends within the pool.
pub proof fn lemma_buffer_fits(offset: i32, stride: i32, height: i32, pool_len: usize)
    ensures
        buffer_fits(offset, stride, height, pool_len) == (0 <= offset && 0 <= stride && 0 <= height
            && offset + stride * height <= pool_len),
{
}

/// The byte range of a buffer within its shared-memory pool: from its
/// offset to the end of its last row; `None` when the range would not lie
/// within the pool (or offset, stride or height is negative).
pub fn buffer_byte_range(offset: i32, stride: i32, height: i32, pool_len: usize) -> (range: Option<
    (usize, usize),
>)
    ensures
        match range {
            Some((start, end)) => buffer_fits(offset, stride, height, pool_len) && start == offset
                && end == offset + stride * height,
            None => !buffer_fits(offset, stride, height, pool_len),
        },
        (0 <= offset && 0 <= stride && 0 <= height && offset + stride * height <= pool_len)
            ==> range == Some((offset as usize, (offset + stride * height) as usize)),
        range is Some ==> 0 <= offset && 0 <= stride && 0 <= height && offset + stride * height
            <= pool_len,
{
    proof {
        lemma_buffer_fits(offset, stride, height, pool_len);
    }
    if offset < 0 || stride < 0 || height < 0 {
        return None;
    }
    assert(0 <= stride * height <= 0x7fff_ffff * 0x7fff_ffff) by (nonlinear_arith)
        requires
            0 <= stride <= 0x7fff_ffff,
            0 <= height <= 0x7fff_ffff,
    ;
    let rows_bytes: i64 = (stride as i64) * (height as i64);
    let end: i64 = (offset as i64) + rows_bytes;
    if (end as u64) <= (pool_len as u64) {
        Some((offset as usize, end as usize))
    } else {
        None
    }
}

} // verus!
