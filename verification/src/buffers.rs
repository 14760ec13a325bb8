//! Buffer sources: the four ways a frame's pixels reach and leave the device.

use vstd::prelude::*;

verus! {

/// Extent of one frame: pixels per row, number of rows, bytes per row.
#[derive(Clone, Copy, Debug, PartialEq, Eq, Structural)]
pub struct FrameSize {
    pub width: usize,
    pub height: usize,
    pub row_bytes: usize,
}

impl FrameSize {
    /// Bytes in a frame: bytes per row times rows.
    pub open spec fn byte_count(&self) -> int {
        self.row_bytes as int * self.height as int
    }

    /// The frame's byte count, or `None` when it does not fit in `usize`.
    pub fn byte_len(&self) -> (len: Option<usize>)
        ensures
            len == (if self.byte_count() <= usize::MAX {
                Some(self.byte_count() as usize)
            } else {
                None
            }),
    {
        self.row_bytes.checked_mul(self.height)
    }
}

/// Where a frame's input comes from and where its output goes.
///
/// Handles of other APIs are carried as plain addresses; the crate never
/// dereferences them.
#[allow(inconsistent_fields)]
#[derive(Clone, Copy, Debug, PartialEq, Eq, Structural)]
pub enum BufferSource {
    /// Host memory: the byte lengths of the caller's input and output slices.
    Cpu { input_len: usize, output_len: usize },
    /// Memory objects owned by an external compute queue.
    ExternalQueue { queue: usize, input: usize, output: usize },
    /// Textures of an OpenGL-style graphics context, by texture id.
    SharedTextureA { context: usize, input: u32, output: u32 },
    /// Texture resources of a DirectX-style device.
    SharedTextureB { device: usize, input: usize, output: usize },
}

/// One step of the checksum: folds a 32-bit word into the running value.
pub open spec fn mix(sum: int, word: int) -> int {
    (sum * 31 + word) % 0x1_0000_0000
}

/// Folds an address into the running value, low half first.
pub open spec fn mix_address(sum: int, address: usize) -> int {
    mix(mix(sum, address as int % 0x1_0000_0000), address as int / 0x1_0000_0000)
}

fn mix_word(sum: u32, word: u32) -> (next: u32)
    ensures
        next == mix(sum as int, word as int),
{
    let wide: u64 = (sum as u64) * 31 + (word as u64);
    (wide % 0x1_0000_0000) as u32
}

fn mix_handle(sum: u32, address: usize) -> (next: u32)
    ensures
        next == mix_address(sum as int, address),
{
    let wide: u64 = address as u64;
    let low: u32 = (wide % 0x1_0000_0000) as u32;
    let high: u32 = (wide / 0x1_0000_0000) as u32;
    mix_word(mix_word(sum, low), high)
}

impl BufferSource {
    /// The surface checksum: a value that depends only on the variant and on
    /// the handles it names, never on the size or content of host memory.
    pub open spec fn checksum(&self) -> int {
        match *self {
            BufferSource::Cpu { .. } => 0,
            BufferSource::ExternalQueue { queue, input, output } => mix_address(
                mix_address(mix_address(1, input), output),
                queue,
            ),
            BufferSource::SharedTextureA { context, input, output } => mix_address(
                mix(mix(2, input as int), output as int),
                context,
            ),
            BufferSource::SharedTextureB { device, input, output } => mix_address(
                mix_address(mix_address(3, input), output),
                device,
            ),
        }
    }

    /// Computes the surface checksum.
    pub fn get_checksum(&self) -> (sum: u32)
        ensures
            sum == self.checksum(),
    {
        match *self {
            BufferSource::Cpu { .. } => 0,
            BufferSource::ExternalQueue { queue, input, output } => mix_handle(
                mix_handle(mix_handle(1, input), output),
                queue,
            ),
            BufferSource::SharedTextureA { context, input, output } => mix_handle(
                mix_word(mix_word(2, input), output),
                context,
            ),
            BufferSource::SharedTextureB { device, input, output } => mix_handle(
                mix_handle(mix_handle(3, input), output),
                device,
            ),
        }
    }
}

/// A buffer source together with the extents of the input and output frames.
#[derive(Clone, Copy, Debug, PartialEq, Eq, Structural)]
pub struct BufferDescription {
    pub buffer_source: BufferSource,
    pub input_size: FrameSize,
    pub output_size: FrameSize,
}

/// Whether the backend of `buffers` can be used on a host where the native
/// DirectX-style API is present (`direct3d`) or absent.
///
/// Every backend is supported everywhere, except the DirectX-style shared
/// texture, which needs that API.
pub fn is_buffer_supported(buffers: &BufferDescription, direct3d: bool) -> (supported: bool)
    ensures
        supported == (buffers.buffer_source is SharedTextureB ==> direct3d),
{
    match buffers.buffer_source {
        BufferSource::Cpu { .. } => true,
        BufferSource::SharedTextureA { .. } => true,
        BufferSource::SharedTextureB { .. } => direct3d,
        BufferSource::ExternalQueue { .. } => true,
    }
}

} // verus!
