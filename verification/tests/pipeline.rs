//! End-to-end run of the bridge: a controller snapshot flows through the
//! machine's memory region, a frame flows back out and is decoded.

use std::sync::mpsc;

use enter_bridge::controller_state::{ButtonLevel, ControllerState, GamepadInput, PadButton};
use enter_bridge::def::{NUM_FRAME_BYTES, SIGNAL_FLUSH_FRAME};
use enter_bridge::enter_system::EnterSystem;
use enter_bridge::render::{build_color_map, forward_input, poll_and_render, RenderAction};

#[test]
fn snapshot_and_frame_round_trip() {
    let color_map = build_color_map();
    let (input_tx, input_rx) = mpsc::channel::<ControllerState>();
    let (frame_tx, frame_rx) = mpsc::channel::<Vec<u8>>();
    let sys = EnterSystem::new(input_rx, frame_tx);
    let mut mem = vec![0u8; 2 * 1024];

    // Render side: the player presses A; the snapshot goes to the machine.
    let mut live = ControllerState::default();
    let press_a = GamepadInput::ButtonChanged(PadButton::East, ButtonLevel::Pressed);
    assert!(matches!(
        forward_input(&input_tx, &mut live, Some(press_a)),
        enter_bridge::render::InputForward::Forwarded
    ));

    // Machine side: the next cycle mirrors the snapshot into memory.
    sys.pre_cycle(&mut mem);
    assert_eq!(mem[NUM_FRAME_BYTES], 1);
    assert_eq!(&mem[NUM_FRAME_BYTES + 1..NUM_FRAME_BYTES + 12], &[0u8; 11]);

    // Machine code writes one bright pixel, then issues the flush signal.
    mem[0] = 0xFF;
    assert_eq!(sys.system_call(&mem, SIGNAL_FLUSH_FRAME), Ok(()));

    // Render side: exactly one pixel at (0, 0) in the decoded color, every
    // other pixel black.
    match poll_and_render(&frame_rx, &color_map) {
        RenderAction::Draw(pixels) => {
            assert_eq!(pixels.len(), NUM_FRAME_BYTES);
            assert_eq!((pixels[0].x, pixels[0].y), (0, 0));
            assert_eq!((pixels[0].red, pixels[0].green, pixels[0].blue), (252, 252, 255));
            for p in &pixels[1..] {
                assert_eq!((p.red, p.green, p.blue), (0, 0, 0));
            }
        }
        other => panic!("the flushed frame must draw, got {:?}", other),
    }

    // Nothing else is pending; the renderer idles.
    assert_eq!(poll_and_render(&frame_rx, &color_map), RenderAction::Idle);

    // When the machine side goes away the renderer stops on its next poll.
    drop(sys);
    assert_eq!(poll_and_render(&frame_rx, &color_map), RenderAction::Terminate);
}
