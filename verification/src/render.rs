//! The render-pipeline core: the fixed palette, the decoding of one frame
//! into per-pixel writes, and the per-iteration decisions of the render
//! loop.  The two back ends (LED matrix, debug window) share this logic and
//! differ only in how they perform the resulting pixel writes.

use vstd::prelude::*;

use crate::channel::{send_snapshot, try_recv_frame};
use crate::controller_state::{spec_apply, ControllerState, GamepadInput};
use crate::def::{DIMENSION, NUM_FRAME_BYTES};
use std::sync::mpsc::{Receiver, Sender};

verus! {

/// Outcome of one non-blocking poll of the frame channel.
#[derive(Debug, PartialEq, Eq)]
pub enum FramePoll {
    /// A finished frame was pending.
    Received(Vec<u8>),
    /// Nothing pending yet; poll again later.
    Empty,
    /// The sending side is gone: the virtual-machine thread has exited.
    Disconnected,
}

/// One pixel of a decoded frame: its grid position and its palette color.
#[derive(Clone, Copy, Debug, PartialEq, Eq, Structural)]
pub struct PixelWrite {
    pub x: u8,
    pub y: u8,
    pub red: u8,
    pub green: u8,
    pub blue: u8,
}

/// What the render loop does with the outcome of one frame poll.
#[derive(Debug, PartialEq, Eq)]
pub enum RenderAction {
    /// Set every listed pixel, then present the finished grid atomically.
    Draw(Vec<PixelWrite>),
    /// No frame yet: yield briefly and keep polling.
    Idle,
    /// Stop the loop: the peer is gone or the frame was malformed.
    Terminate,
}

/// Red channel of the palette: bits 7..5 scaled by 36.
pub open spec fn palette_red(b: u8) -> int {
    ((b >> 5) & 7) * 36
}

/// Green channel of the palette: bits 4..2 scaled by 36.
pub open spec fn palette_green(b: u8) -> int {
    ((b >> 2) & 7) * 36
}

/// Blue channel of the palette: bits 1..0 scaled by 85.
pub open spec fn palette_blue(b: u8) -> int {
    (b & 3) * 85
}

/// Decode one palette index into its RGB-3-3-2 quantized color.
pub fn palette_color(b: u8) -> (c: (u8, u8, u8))
    ensures
        c.0 == palette_red(b),
        c.1 == palette_green(b),
        c.2 == palette_blue(b),
{
    proof {
        assert((b >> 5) & 7 <= 7 && (b >> 2) & 7 <= 7 && (b & 3) <= 3) by (bit_vector);
    }
    let hi: u8 = (b >> 5) & 7;
    let mid: u8 = (b >> 2) & 7;
    let low: u8 = b & 3;
    (hi * 36, mid * 36, low * 85)
}

/// Build the full byte-to-color table the renderers share: entry `b` holds
/// exactly the color the palette formula gives for byte `b`.
pub fn build_color_map() -> (cm: Vec<(u8, u8, u8)>)
    ensures
        cm.len() == 256,
        forall|i: int|
            0 <= i < 256 ==> {
                &&& (#[trigger] cm@[i]).0 == palette_red(i as u8)
                &&& cm@[i].1 == palette_green(i as u8)
                &&& cm@[i].2 == palette_blue(i as u8)
            },
{
    let mut cm: Vec<(u8, u8, u8)> = Vec::new();
    let mut b: usize = 0;
    while b < 256
        invariant
            b <= 256,
            cm.len() == b,
            forall|i: int|
                0 <= i < b ==> {
                    &&& (#[trigger] cm@[i]).0 == palette_red(i as u8)
                    &&& cm@[i].1 == palette_green(i as u8)
                    &&& cm@[i].2 == palette_blue(i as u8)
                },
        decreases 256 - b,
    {
        let color = palette_color(b as u8);
        cm.push(color);
        b = b + 1;
    }
    cm
}

/// The pixel that position `i` of a frame decodes to under a color table:
/// row-major coordinates and the table entry its byte selects.
pub open spec fn spec_pixel(frame: Seq<u8>, cm: Seq<(u8, u8, u8)>, i: int) -> PixelWrite {
    PixelWrite {
        x: (i % (DIMENSION as int)) as u8,
        y: (i / (DIMENSION as int)) as u8,
        red: cm[frame[i] as int].0,
        green: cm[frame[i] as int].1,
        blue: cm[frame[i] as int].2,
    }
}

/// The full decoding of a frame: one pixel write per frame byte, in order.
pub open spec fn spec_decode(frame: Seq<u8>, cm: Seq<(u8, u8, u8)>) -> Seq<PixelWrite> {
    Seq::new(frame.len(), |i: int| spec_pixel(frame, cm, i))
}

/// Decide one render-loop iteration from the outcome of a frame poll.
///
/// A pending frame of exactly the fixed length decodes to the full grid;
/// a frame of any other length is a protocol violation and stops the loop,
/// with nothing drawn.  A disconnected sender stops the loop; an empty
/// queue lets it idle and poll again.
pub fn render_step(poll: FramePoll, color_map: &Vec<(u8, u8, u8)>) -> (action: RenderAction)
    requires
        color_map.len() == 256,
    ensures
        poll is Empty ==> action is Idle,
        poll is Disconnected ==> action is Terminate,
        poll matches FramePoll::Received(frame) ==> {
            if frame@.len() == NUM_FRAME_BYTES {
                action matches RenderAction::Draw(pixels) && pixels@ == spec_decode(
                    frame@,
                    color_map@,
                )
            } else {
                action is Terminate
            }
        },
{
    match poll {
        FramePoll::Empty => RenderAction::Idle,
        FramePoll::Disconnected => RenderAction::Terminate,
        FramePoll::Received(frame) => {
            if frame.len() != NUM_FRAME_BYTES {
                return RenderAction::Terminate;
            }
            let mut pixels: Vec<PixelWrite> = Vec::new();
            let mut index: usize = 0;
            while index < NUM_FRAME_BYTES
                invariant
                    index <= NUM_FRAME_BYTES,
                    frame.len() == NUM_FRAME_BYTES,
                    color_map.len() == 256,
                    pixels@ == spec_decode(frame@, color_map@).take(index as int),
                decreases NUM_FRAME_BYTES - index,
            {
                let byte = frame[index];
                let color = color_map[byte as usize];
                let pixel = PixelWrite {
                    x: (index % DIMENSION) as u8,
                    y: (index / DIMENSION) as u8,
                    red: color.0,
                    green: color.1,
                    blue: color.2,
                };
                pixels.push(pixel);
                assert(pixels@ =~= spec_decode(frame@, color_map@).take(index + 1));
                index = index + 1;
            }
            assert(pixels@ =~= spec_decode(frame@, color_map@));
            RenderAction::Draw(pixels)
        }
    }
}

/// Poll the frame channel once and decide this iteration's action.
///
/// Whatever the poll yields, anything the action draws is the complete
/// decoding of some full-length frame under the given color table.
pub fn poll_and_render(rx: &Receiver<Vec<u8>>, color_map: &Vec<(u8, u8, u8)>) -> (action:
    RenderAction)
    requires
        color_map.len() == 256,
    ensures
        action matches RenderAction::Draw(pixels) ==> exists|f: Seq<u8>|
            f.len() == NUM_FRAME_BYTES && pixels@ == spec_decode(f, color_map@),
{
    let poll = try_recv_frame(rx);
    render_step(poll, color_map)
}

/// What one input poll led to.
#[derive(Clone, Copy, Debug, PartialEq, Eq, Structural)]
pub enum InputForward {
    /// An event was applied and the updated snapshot was sent on.
    Forwarded,
    /// No event was pending; the snapshot is unchanged.
    NoEvent,
    /// The bridge dropped its end of the controller channel: stop the loop.
    ReceiverGone,
}

/// Fold one polled event into the live snapshot and forward the update.
///
/// The snapshot is updated exactly as the event demands; whether the
/// forwarded copy arrives depends on the peer thread, and a gone receiver
/// is reported so the loop can stop.
pub fn forward_input(
    tx: &Sender<ControllerState>,
    state: &mut ControllerState,
    event: Option<GamepadInput>,
) -> (r: InputForward)
    ensures
        event is None ==> *final(state) == *old(state) && r is NoEvent,
        event matches Some(ev) ==> *final(state) == spec_apply(*old(state), ev) && (r is Forwarded
            || r is ReceiverGone),
{
    if let Some(new_state) = state.from_gamepad_state(event) {
        if send_snapshot(tx, &new_state) {
            InputForward::Forwarded
        } else {
            InputForward::ReceiverGone
        }
    } else {
        InputForward::NoEvent
    }
}

} // verus!
