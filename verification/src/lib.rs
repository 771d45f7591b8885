//! Peripheral bridge between a gamepad, a byte-addressed virtual-machine
//! memory region, and a palette-indexed pixel display.
//!
//! The crate is organised around three components: `controller_state` turns
//! raw button events into a debounced snapshot, `enter_system` mirrors that
//! snapshot into the virtual machine's memory and extracts finished frames,
//! and `render` decodes a frame through the fixed palette into pixel writes.

pub mod channel;
pub mod controller_state;
pub mod def;
pub mod enter_system;
pub mod render;
