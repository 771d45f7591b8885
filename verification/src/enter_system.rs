//! The virtual-machine-facing bridge: it mirrors the latest controller
//! snapshot into a fixed memory region once per cycle and, on the flush
//! signal, copies the frame buffer out and hands it to the render thread.

use vstd::assert_seqs_equal;
use vstd::prelude::*;

use crate::channel::{send_frame, try_recv_snapshot};
use crate::controller_state::ControllerState;
use crate::def::{MIRROR_BYTES, NUM_FRAME_BYTES, SIGNAL_FLUSH_FRAME};
use std::sync::mpsc::{Receiver, Sender};

verus! {

/// Errors the bridge can surface to the virtual-machine execution loop.
#[derive(Clone, Copy, Debug, PartialEq, Eq, Structural)]
pub enum BridgeError {
    /// The render thread dropped its end of the frame channel.
    FrameChannelClosed,
}

/// One byte of the button mirror: 1 when the button is held, 0 when not.
pub open spec fn mirror_bit(b: bool) -> u8 {
    if b {
        1u8
    } else {
        0u8
    }
}

/// The 12 mirror bytes derived from a snapshot, in the fixed field order
/// the virtual machine reads: A, B, X, Y, start, select, right trigger,
/// left trigger, d-pad up, down, left, right.
pub open spec fn mirror_bytes(s: ControllerState) -> Seq<u8> {
    seq![
        mirror_bit(s.a),
        mirror_bit(s.b),
        mirror_bit(s.x),
        mirror_bit(s.y),
        mirror_bit(s.start),
        mirror_bit(s.select),
        mirror_bit(s.right_trigger),
        mirror_bit(s.left_trigger),
        mirror_bit(s.d_pad_up),
        mirror_bit(s.d_pad_down),
        mirror_bit(s.d_pad_left),
        mirror_bit(s.d_pad_right),
    ]
}

/// Memory after the mirror write: the 12 mirror bytes are replaced, one
/// field per fixed offset past the frame buffer; every other byte stays.
pub open spec fn spec_write_mirror(mem: Seq<u8>, s: ControllerState) -> Seq<u8> {
    mem.update(NUM_FRAME_BYTES as int, mirror_bit(s.a)).update(
        NUM_FRAME_BYTES + 1,
        mirror_bit(s.b),
    ).update(NUM_FRAME_BYTES + 2, mirror_bit(s.x)).update(
        NUM_FRAME_BYTES + 3,
        mirror_bit(s.y),
    ).update(NUM_FRAME_BYTES + 4, mirror_bit(s.start)).update(
        NUM_FRAME_BYTES + 5,
        mirror_bit(s.select),
    ).update(NUM_FRAME_BYTES + 6, mirror_bit(s.right_trigger)).update(
        NUM_FRAME_BYTES + 7,
        mirror_bit(s.left_trigger),
    ).update(NUM_FRAME_BYTES + 8, mirror_bit(s.d_pad_up)).update(
        NUM_FRAME_BYTES + 9,
        mirror_bit(s.d_pad_down),
    ).update(NUM_FRAME_BYTES + 10, mirror_bit(s.d_pad_left)).update(
        NUM_FRAME_BYTES + 11,
        mirror_bit(s.d_pad_right),
    )
}

/// Everything the mirror write leaves and puts in place: the frame buffer
/// and the tail beyond the mirror are untouched, and the mirror region
/// holds exactly the bytes derived from the snapshot.
#[verifier::rlimit(80)]
pub proof fn lemma_write_mirror_regions(mem: Seq<u8>, s: ControllerState)
    requires
        mem.len() >= NUM_FRAME_BYTES + MIRROR_BYTES,
    ensures
        spec_write_mirror(mem, s).len() == mem.len(),
        spec_write_mirror(mem, s).take(NUM_FRAME_BYTES as int) == mem.take(NUM_FRAME_BYTES as int),
        spec_write_mirror(mem, s).skip((NUM_FRAME_BYTES + MIRROR_BYTES) as int) == mem.skip(
            (NUM_FRAME_BYTES + MIRROR_BYTES) as int,
        ),
        spec_write_mirror(mem, s).subrange(
            NUM_FRAME_BYTES as int,
            (NUM_FRAME_BYTES + MIRROR_BYTES) as int,
        ) == mirror_bytes(s),
{
    assert_seqs_equal!(
        spec_write_mirror(mem, s).take(NUM_FRAME_BYTES as int)
            == mem.take(NUM_FRAME_BYTES as int)
    );
    assert_seqs_equal!(
        spec_write_mirror(mem, s).skip((NUM_FRAME_BYTES + MIRROR_BYTES) as int)
            == mem.skip((NUM_FRAME_BYTES + MIRROR_BYTES) as int)
    );
    assert_seqs_equal!(
        spec_write_mirror(mem, s).subrange(
            NUM_FRAME_BYTES as int,
            (NUM_FRAME_BYTES + MIRROR_BYTES) as int,
        ) == mirror_bytes(s)
    );
}

/// Write the snapshot's 12 fields as single bytes into the button-mirror
/// region, leaving every other byte of the region untouched.
#[verifier::rlimit(80)]
pub fn write_button_mirror(mem: &mut Vec<u8>, ctrl: &ControllerState)
    requires
        old(mem).len() >= NUM_FRAME_BYTES + MIRROR_BYTES,
    ensures
        final(mem)@ == spec_write_mirror(old(mem)@, *ctrl),
        final(mem).len() == old(mem).len(),
{
    mem.set(NUM_FRAME_BYTES, if ctrl.a { 1 } else { 0 });
    mem.set(NUM_FRAME_BYTES + 1, if ctrl.b { 1 } else { 0 });
    mem.set(NUM_FRAME_BYTES + 2, if ctrl.x { 1 } else { 0 });
    mem.set(NUM_FRAME_BYTES + 3, if ctrl.y { 1 } else { 0 });
    mem.set(NUM_FRAME_BYTES + 4, if ctrl.start { 1 } else { 0 });
    mem.set(NUM_FRAME_BYTES + 5, if ctrl.select { 1 } else { 0 });
    mem.set(NUM_FRAME_BYTES + 6, if ctrl.right_trigger { 1 } else { 0 });
    mem.set(NUM_FRAME_BYTES + 7, if ctrl.left_trigger { 1 } else { 0 });
    mem.set(NUM_FRAME_BYTES + 8, if ctrl.d_pad_up { 1 } else { 0 });
    mem.set(NUM_FRAME_BYTES + 9, if ctrl.d_pad_down { 1 } else { 0 });
    mem.set(NUM_FRAME_BYTES + 10, if ctrl.d_pad_left { 1 } else { 0 });
    mem.set(NUM_FRAME_BYTES + 11, if ctrl.d_pad_right { 1 } else { 0 });
}

/// Apply the outcome of one controller-channel poll to the memory region:
/// a pending snapshot overwrites the button mirror, and no pending
/// snapshot leaves the memory untouched in its entirety — the machine
/// keeps seeing the most recently delivered snapshot.
pub fn apply_snapshot_poll(mem: &mut Vec<u8>, polled: Option<ControllerState>)
    requires
        old(mem).len() >= NUM_FRAME_BYTES + MIRROR_BYTES,
    ensures
        polled is None ==> final(mem)@ == old(mem)@,
        polled matches Some(s) ==> final(mem)@ == spec_write_mirror(old(mem)@, s),
{
    if let Some(ctrl) = polled {
        write_button_mirror(mem, &ctrl);
    }
}

/// Copy the frame-buffer region out of the memory region into a fresh
/// byte sequence.
pub fn extract_frame(mem: &Vec<u8>) -> (frame: Vec<u8>)
    requires
        mem.len() >= NUM_FRAME_BYTES,
    ensures
        frame@ == mem@.take(NUM_FRAME_BYTES as int),
{
    let mut frame: Vec<u8> = Vec::new();
    let mut i: usize = 0;
    while i < NUM_FRAME_BYTES
        invariant
            i <= NUM_FRAME_BYTES,
            mem.len() >= NUM_FRAME_BYTES,
            frame@ == mem@.take(i as int),
        decreases NUM_FRAME_BYTES - i,
    {
        frame.push(mem[i]);
        assert(frame@ =~= mem@.take(i + 1));
        i = i + 1;
    }
    frame
}

/// Writing the same snapshot over any two memory regions leaves identical
/// mirror regions: the mirror bytes depend on the snapshot alone.
pub proof fn lemma_mirror_write_stable(m1: Seq<u8>, m2: Seq<u8>, s: ControllerState)
    requires
        m1.len() >= NUM_FRAME_BYTES + MIRROR_BYTES,
        m2.len() >= NUM_FRAME_BYTES + MIRROR_BYTES,
    ensures
        spec_write_mirror(m1, s).subrange(
            NUM_FRAME_BYTES as int,
            (NUM_FRAME_BYTES + MIRROR_BYTES) as int,
        ) == mirror_bytes(s),
        spec_write_mirror(m1, s).subrange(
            NUM_FRAME_BYTES as int,
            (NUM_FRAME_BYTES + MIRROR_BYTES) as int,
        ) == spec_write_mirror(m2, s).subrange(
            NUM_FRAME_BYTES as int,
            (NUM_FRAME_BYTES + MIRROR_BYTES) as int,
        ),
{
    lemma_write_mirror_regions(m1, s);
    lemma_write_mirror_regions(m2, s);
}

/// The bridge the virtual machine drives through its per-cycle and
/// host-call hooks.  It owns the receiving end of the controller channel
/// and the sending end of the frame channel.
pub struct EnterSystem {
    input_receiver: Receiver<ControllerState>,
    frame_sender: Sender<Vec<u8>>,
}

impl EnterSystem {
    /// Build a bridge around the two channel halves.
    pub fn new(input: Receiver<ControllerState>, output: Sender<Vec<u8>>) -> EnterSystem {
        EnterSystem { input_receiver: input, frame_sender: output }
    }

    /// Once per cycle: poll the controller channel without blocking; if a
    /// snapshot is pending, overwrite the button mirror with it, otherwise
    /// leave the memory region exactly as it was.  The frame buffer and the
    /// bytes past the mirror are never touched.
    pub fn pre_cycle(&self, mem: &mut Vec<u8>)
        requires
            old(mem).len() >= NUM_FRAME_BYTES + MIRROR_BYTES,
        ensures
            final(mem).len() == old(mem).len(),
            final(mem)@ == old(mem)@ || (exists|s: ControllerState|
                final(mem)@ == spec_write_mirror(old(mem)@, s)),
            final(mem)@.take(NUM_FRAME_BYTES as int) == old(mem)@.take(NUM_FRAME_BYTES as int),
            final(mem)@.skip((NUM_FRAME_BYTES + MIRROR_BYTES) as int) == old(mem)@.skip(
                (NUM_FRAME_BYTES + MIRROR_BYTES) as int,
            ),
    {
        let polled = try_recv_snapshot(&self.input_receiver);
        apply_snapshot_poll(mem, polled);
        proof {
            match polled {
                Some(s) => lemma_write_mirror_regions(old(mem)@, s),
                None => {}
            }
        }
    }

    /// The host-call hook.  The only defined signal is the flush signal:
    /// it copies the frame buffer out of the memory region and sends it to
    /// the render thread.  Any other signal is a contract violation by the
    /// machine code and is excluded by the precondition; a failed send
    /// means the render thread is gone and surfaces as a bridge error.
    pub fn system_call(&self, mem: &Vec<u8>, signal: u16) -> (r: Result<(), BridgeError>)
        requires
            mem.len() >= NUM_FRAME_BYTES,
            signal == SIGNAL_FLUSH_FRAME,
        ensures
            r matches Err(e) ==> e == BridgeError::FrameChannelClosed,
    {
        let current_frame = extract_frame(mem);
        if send_frame(&self.frame_sender, current_frame) {
            Ok(())
        } else {
            Err(BridgeError::FrameChannelClosed)
        }
    }
}

} // verus!
