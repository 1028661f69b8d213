//! The presentation surface bound to a window, and the render-target view of
//! its back buffer.

use vstd::prelude::*;

verus! {

/// Number of buffers in the ring: triple buffering.
pub const BUFFER_COUNT: u32 = 3;

/// Index of the buffer that the back-buffer view wraps.
pub const BACK_BUFFER: u32 = 0;

/// Pixel formats that the harness names.
#[derive(Clone, Copy, Debug, PartialEq, Eq, Structural)]
pub enum Format {
    /// No format: in a resize request, "keep the format the buffers have".
    Unknown,
    /// Four normalized 8-bit channels, red first.
    Rgba8Unorm,
}

/// How a present hands a buffer to the display.
#[derive(Clone, Copy, Debug, PartialEq, Eq, Structural)]
pub enum SwapEffect {
    Discard,
    Sequential,
    FlipSequential,
    /// Buffers rotate without a copy and the previous contents are discarded.
    FlipDiscard,
}

/// What is asked of the platform when the swap chain is created.
#[derive(Clone, Copy, Debug, PartialEq, Eq, Structural)]
pub struct SwapChainDesc {
    /// Width in pixels; 0 asks for the window's client width.
    pub width: u32,
    /// Height in pixels; 0 asks for the window's client height.
    pub height: u32,
    pub format: Format,
    pub stereo: bool,
    pub sample_count: u32,
    pub sample_quality: u32,
    pub buffer_count: u32,
    pub swap_effect: SwapEffect,
    pub flags: u32,
    pub windowed: bool,
}

/// The swap chain of one window. It is created once and resized in place:
/// each successful resize starts a new generation of buffers.
#[derive(Clone, Copy, Debug, PartialEq, Eq, Structural)]
pub struct SwapChain {
    /// The native handle of the window that the surface is bound to.
    pub window: usize,
    pub width: u32,
    pub height: u32,
    /// Counts the resizes; a view belongs to the generation it was built in.
    pub generation: u64,
}

/// A render-target view of buffer `BACK_BUFFER` of a swap chain.
#[derive(Clone, Copy, Debug, PartialEq, Eq, Structural)]
pub struct BackBufferView {
    pub format: Format,
    pub width: u32,
    pub height: u32,
    /// The generation of buffers that the view was built for.
    pub generation: u64,
}

/// The generation that follows `generation`; the count wraps around.
pub open spec fn next_generation(generation: u64) -> u64 {
    if generation == u64::MAX {
        0
    } else {
        (generation + 1) as u64
    }
}

impl SwapChain {
    /// The swap chain as it is right after creation for `window`.
    pub open spec fn created(window: usize, width: u32, height: u32) -> SwapChain {
        SwapChain { window, width, height, generation: 0 }
    }

    /// The swap chain after its buffers were resized to `width` x `height`.
    pub open spec fn resized(self, width: u32, height: u32) -> SwapChain {
        SwapChain { window: self.window, width, height, generation: next_generation(self.generation) }
    }

    /// The request that creates this swap chain: flip-discard, triple
    /// buffered, not stereo, windowed, 8-bit RGBA.
    pub open spec fn request(self) -> SwapChainDesc {
        SwapChainDesc {
            width: self.width,
            height: self.height,
            format: Format::Rgba8Unorm,
            stereo: false,
            sample_count: 1,
            sample_quality: 0,
            buffer_count: BUFFER_COUNT,
            swap_effect: SwapEffect::FlipDiscard,
            flags: 0,
            windowed: true,
        }
    }

    pub fn new(window: usize, width: u32, height: u32) -> (swap_chain: SwapChain)
        ensures
            swap_chain == SwapChain::created(window, width, height),
    {
        SwapChain { window, width, height, generation: 0 }
    }

    /// Adopts new buffer dimensions and moves to the next generation.
    pub fn resize(&mut self, width: u32, height: u32)
        ensures
            *final(self) == old(self).resized(width, height),
    {
        let generation: u64 = if self.generation == u64::MAX {
            0
        } else {
            self.generation + 1
        };
        *self = SwapChain { window: self.window, width, height, generation };
    }

    pub fn desc(&self) -> (desc: SwapChainDesc)
        ensures
            desc == self.request(),
    {
        SwapChainDesc {
            width: self.width,
            height: self.height,
            format: Format::Rgba8Unorm,
            stereo: false,
            sample_count: 1,
            sample_quality: 0,
            buffer_count: BUFFER_COUNT,
            swap_effect: SwapEffect::FlipDiscard,
            flags: 0,
            windowed: true,
        }
    }
}

impl BackBufferView {
    /// The view that wraps the back buffer of `swap_chain` as it is now.
    pub open spec fn of(swap_chain: SwapChain) -> BackBufferView {
        BackBufferView {
            format: Format::Rgba8Unorm,
            width: swap_chain.width,
            height: swap_chain.height,
            generation: swap_chain.generation,
        }
    }

    /// Whether the view was built for the buffers that `swap_chain` has now.
    pub open spec fn current(self, swap_chain: SwapChain) -> bool {
        self == BackBufferView::of(swap_chain)
    }
}

/// Builds the view of the swap chain's back buffer, in the swap chain's own
/// format.
pub fn framebuffer_rtv(swap_chain: &SwapChain) -> (view: BackBufferView)
    ensures
        view == BackBufferView::of(*swap_chain),
{
    BackBufferView {
        format: Format::Rgba8Unorm,
        width: swap_chain.width,
        height: swap_chain.height,
        generation: swap_chain.generation,
    }
}

} // verus!
