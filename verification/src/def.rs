use vstd::prelude::*;

verus! {

/// Width and height, in pixels, of the fixed square display.
pub const DIMENSION: usize = 32;

/// Length in bytes of one full palette-indexed frame (row-major).
pub const NUM_FRAME_BYTES: usize = DIMENSION * DIMENSION;

/// Length in bytes of the button mirror that follows the frame buffer.
pub const MIRROR_BYTES: usize = 12;

/// Memory pages the bridge asks the virtual machine to allocate; one page
/// holds 1024 bytes, so two pages cover the frame buffer and the mirror.
pub const MEM_PAGES: u8 = 2;

/// Host-call code that asks the bridge to flush the current frame buffer.
pub const SIGNAL_FLUSH_FRAME: u16 = 1;

} // verus!
