//! A minimal real-time rendering harness: one window, one GPU device, one swap
//! chain, and a present loop that clears the back buffer to a colour that
//! wanders round the colour wheel and draws a triangle on it.
//!
//! The library decides and a thin shell acts. Every event of the window
//! starts a handler, a fixed script of commands. The shell carries out one
//! command at a time on the GPU and reports how it ended; the library keeps
//! account of the objects that exist and hands out the next command only when
//! the state of those objects permits it.
//!
//! - [`app`]: the application state that the event loop calls into.
//! - [`context`]: the lifecycle of device, swap chain and back-buffer view,
//!   and the present cycle.
//! - [`gpu`]: the commands, and the account of the GPU objects.
//! - [`adapter`]: adapter preference and selection, and the device.
//! - [`swapchain`]: the swap chain and the view of its back buffer.
//! - [`pipeline`], [`shader`], [`shared`]: the fixed pipeline state, the
//!   shader stages, and buffer descriptions.
//! - [`color`]: the clear colour of a hue, in exact arithmetic.
//! - [`timer`]: the frame clock.

pub mod adapter;
pub mod app;
pub mod color;
pub mod context;
pub mod gpu;
pub mod pipeline;
pub mod shader;
pub mod shared;
pub mod swapchain;
pub mod timer;
