use std::sync::mpsc;

use enter_bridge::controller_state::{ButtonLevel, ControllerState, GamepadInput, PadButton};
use enter_bridge::def::{MIRROR_BYTES, NUM_FRAME_BYTES, SIGNAL_FLUSH_FRAME};
use enter_bridge::enter_system::{
    apply_snapshot_poll, extract_frame, write_button_mirror, BridgeError, EnterSystem,
};

fn memory() -> Vec<u8> {
    vec![0u8; 2 * 1024]
}

fn snapshot_a() -> ControllerState {
    let mut s = ControllerState::default();
    s.apply_input(GamepadInput::ButtonChanged(PadButton::East, ButtonLevel::Pressed));
    s
}

#[test]
fn mirror_write_uses_fixed_field_order() {
    let mut s = ControllerState::default();
    s.a = true;
    s.y = true;
    s.select = true;
    s.left_trigger = true;
    s.d_pad_down = true;
    s.d_pad_left = true;
    let mut mem = memory();
    write_button_mirror(&mut mem, &s);
    let expected: [u8; 12] = [1, 0, 0, 1, 0, 1, 0, 1, 0, 1, 1, 0];
    assert_eq!(&mem[NUM_FRAME_BYTES..NUM_FRAME_BYTES + MIRROR_BYTES], &expected);
}

#[test]
fn mirror_write_touches_only_the_mirror() {
    let mut mem: Vec<u8> = (0..2048u32).map(|i| (i % 251) as u8).collect();
    let before = mem.clone();
    write_button_mirror(&mut mem, &snapshot_a());
    assert_eq!(&mem[..NUM_FRAME_BYTES], &before[..NUM_FRAME_BYTES]);
    assert_eq!(
        &mem[NUM_FRAME_BYTES + MIRROR_BYTES..],
        &before[NUM_FRAME_BYTES + MIRROR_BYTES..]
    );
}

#[test]
fn mirror_bytes_depend_on_the_snapshot_alone() {
    let s = snapshot_a();
    let mut m1 = memory();
    let mut m2: Vec<u8> = (0..2048u32).map(|i| (i % 17) as u8).collect();
    write_button_mirror(&mut m1, &s);
    write_button_mirror(&mut m2, &s);
    assert_eq!(
        &m1[NUM_FRAME_BYTES..NUM_FRAME_BYTES + MIRROR_BYTES],
        &m2[NUM_FRAME_BYTES..NUM_FRAME_BYTES + MIRROR_BYTES]
    );
    // Re-deriving the mirror from the same snapshot a second time changes
    // nothing: the bytes are stable.
    let frozen = m1.clone();
    write_button_mirror(&mut m1, &s);
    assert_eq!(m1, frozen);
}

#[test]
fn empty_poll_leaves_memory_untouched() {
    let mut mem: Vec<u8> = (0..2048u32).map(|i| (i % 13) as u8).collect();
    let before = mem.clone();
    apply_snapshot_poll(&mut mem, None);
    assert_eq!(mem, before);
    apply_snapshot_poll(&mut mem, Some(snapshot_a()));
    assert_ne!(mem, before);
    assert_eq!(mem[NUM_FRAME_BYTES], 1);
    assert_eq!(&mem[..NUM_FRAME_BYTES], &before[..NUM_FRAME_BYTES]);
}

#[test]
fn extract_frame_copies_the_frame_region() {
    let mut mem = memory();
    for i in 0..NUM_FRAME_BYTES {
        mem[i] = (i % 256) as u8;
    }
    mem[NUM_FRAME_BYTES] = 77;
    let frame = extract_frame(&mem);
    assert_eq!(frame.len(), NUM_FRAME_BYTES);
    assert_eq!(&frame[..], &mem[..NUM_FRAME_BYTES]);
}

#[test]
fn pre_cycle_applies_a_pending_snapshot() {
    let (input_tx, input_rx) = mpsc::channel();
    let (frame_tx, _frame_rx) = mpsc::channel();
    let sys = EnterSystem::new(input_rx, frame_tx);
    let mut mem = memory();
    input_tx.send(snapshot_a()).unwrap();
    sys.pre_cycle(&mut mem);
    assert_eq!(mem[NUM_FRAME_BYTES], 1);
    assert_eq!(&mem[NUM_FRAME_BYTES + 1..NUM_FRAME_BYTES + MIRROR_BYTES], &[0u8; 11]);
}

#[test]
fn pre_cycle_without_update_leaves_the_mirror() {
    let (input_tx, input_rx) = mpsc::channel();
    let (frame_tx, _frame_rx) = mpsc::channel();
    let sys = EnterSystem::new(input_rx, frame_tx);
    let mut mem = memory();
    input_tx.send(snapshot_a()).unwrap();
    sys.pre_cycle(&mut mem);
    let after_first = mem.clone();
    // No further update is pending: the machine keeps seeing the last one.
    sys.pre_cycle(&mut mem);
    assert_eq!(mem, after_first);
    // A disconnected input side behaves the same way.
    drop(input_tx);
    sys.pre_cycle(&mut mem);
    assert_eq!(mem, after_first);
}

#[test]
fn pre_cycle_drains_one_snapshot_per_cycle_in_order() {
    let (input_tx, input_rx) = mpsc::channel();
    let (frame_tx, _frame_rx) = mpsc::channel();
    let sys = EnterSystem::new(input_rx, frame_tx);
    let mut mem = memory();
    let mut second = ControllerState::default();
    second.start = true;
    input_tx.send(snapshot_a()).unwrap();
    input_tx.send(second.clone()).unwrap();
    sys.pre_cycle(&mut mem);
    assert_eq!(mem[NUM_FRAME_BYTES], 1);
    assert_eq!(mem[NUM_FRAME_BYTES + 4], 0);
    sys.pre_cycle(&mut mem);
    assert_eq!(mem[NUM_FRAME_BYTES], 0);
    assert_eq!(mem[NUM_FRAME_BYTES + 4], 1);
}

#[test]
fn system_call_sends_the_frame_buffer() {
    let (_input_tx, input_rx) = mpsc::channel();
    let (frame_tx, frame_rx) = mpsc::channel();
    let sys = EnterSystem::new(input_rx, frame_tx);
    let mut mem = memory();
    mem[0] = 0xFF;
    mem[5] = 42;
    mem[NUM_FRAME_BYTES - 1] = 7;
    mem[NUM_FRAME_BYTES] = 99;
    assert_eq!(sys.system_call(&mem, SIGNAL_FLUSH_FRAME), Ok(()));
    let frame = frame_rx.try_recv().unwrap();
    assert_eq!(frame.len(), NUM_FRAME_BYTES);
    assert_eq!(&frame[..], &mem[..NUM_FRAME_BYTES]);
}

#[test]
fn system_call_surfaces_a_gone_receiver() {
    let (_input_tx, input_rx) = mpsc::channel();
    let (frame_tx, frame_rx) = mpsc::channel();
    let sys = EnterSystem::new(input_rx, frame_tx);
    let mem = memory();
    drop(frame_rx);
    assert_eq!(
        sys.system_call(&mem, SIGNAL_FLUSH_FRAME),
        Err(BridgeError::FrameChannelClosed)
    );
}
