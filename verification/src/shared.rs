//! Data that the CPU shares with the GPU: buffer descriptions.

use vstd::prelude::*;
use vstd::layout::layout_of_slices;
use vstd::layout::size_of;

verus! {

/// Bind flag of a buffer that feeds vertices to the input assembler.
pub const BIND_VERTEX_BUFFER: u32 = 1;

/// Bind flag of a buffer that feeds indices to the input assembler.
pub const BIND_INDEX_BUFFER: u32 = 2;

/// The two buffers of the triangle.
#[derive(Clone, Copy, Debug, PartialEq, Eq, Structural)]
pub enum BufferKind {
    Vertex,
    Index,
}

/// What is asked of the device when a buffer is created. The buffer has
/// default usage, no CPU access and no other flags.
#[derive(Clone, Copy, Debug, PartialEq, Eq, Structural)]
pub struct BufferDesc {
    /// Size of the whole buffer in bytes.
    pub byte_width: u32,
    pub bind_flags: u32,
    /// Size of one element in bytes.
    pub stride: u32,
}

/// Why a buffer cannot be described.
#[derive(Clone, Copy, Debug, PartialEq, Eq, Structural)]
pub enum BufferError {
    /// The data or one element of it has more bytes than a `u32` can count.
    TooLarge,
}

impl BufferKind {
    pub open spec fn flags(self) -> u32 {
        match self {
            BufferKind::Vertex => BIND_VERTEX_BUFFER,
            BufferKind::Index => BIND_INDEX_BUFFER,
        }
    }

    /// The bind flag under which a buffer of this kind is created.
    pub fn bind_flags(&self) -> (flags: u32)
        ensures
            flags == self.flags(),
    {
        match self {
            BufferKind::Vertex => BIND_VERTEX_BUFFER,
            BufferKind::Index => BIND_INDEX_BUFFER,
        }
    }
}

/// Describes the buffer that holds `data`: as many bytes as the slice has,
/// one element per stride. Fails where the slice or one element of it is
/// larger than `u32::MAX` bytes, and only there.
pub fn buffer<T>(data: &[T], bind_flags: u32) -> (result: Result<BufferDesc, BufferError>)
    ensures
        result is Ok <==> data@.len() * size_of::<T>() <= u32::MAX && size_of::<T>() <= u32::MAX,
        result matches Ok(desc) ==> desc.byte_width == data@.len() * size_of::<T>() && desc.stride
            == size_of::<T>() && desc.bind_flags == bind_flags,
{
    broadcast use layout_of_slices;

    let size: usize = core::mem::size_of_val(data);
    let element: usize = core::mem::size_of::<T>();
    if size > u32::MAX as usize || element > u32::MAX as usize {
        Err(BufferError::TooLarge)
    } else {
        Ok(BufferDesc { byte_width: size as u32, bind_flags, stride: element as u32 })
    }
}

} // verus!
