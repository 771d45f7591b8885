use vstd::prelude::*;

verus! {

/// The level a gamepad reports for one button in a button-changed event.
///
/// The hardware reports a ranged value per button; only the two sentinel
/// levels ("fully released", "fully pressed") drive the direct mappings,
/// and any other level is `Partial`.
#[derive(Clone, Copy, Debug, PartialEq, Eq, Structural)]
pub enum ButtonLevel {
    Released,
    Pressed,
    Partial,
}

/// The buttons the bridge understands.  The two d-pad entries stand for the
/// vertical and horizontal axes, which some input backends report as a
/// single changed value per axis; every other physical control is `Other`.
#[derive(Clone, Copy, Debug, PartialEq, Eq, Structural)]
pub enum PadButton {
    South,
    East,
    North,
    West,
    LeftTrigger,
    RightTrigger,
    Select,
    Start,
    DPadUp,
    DPadRight,
    Other,
}

/// One raw event polled from the input backend.
#[derive(Clone, Copy, Debug, PartialEq, Eq, Structural)]
pub enum GamepadInput {
    ButtonChanged(PadButton, ButtonLevel),
    Other,
}

/// Debounced, edge-resolved snapshot of every button the bridge tracks.
///
/// The d-pad transition rule keeps `d_pad_up`/`d_pad_down` mutually
/// exclusive, and likewise `d_pad_left`/`d_pad_right`.
#[derive(Clone, Copy, Debug, PartialEq, Eq, Structural)]
pub struct ControllerState {
    pub a: bool,
    pub b: bool,
    pub x: bool,
    pub y: bool,
    pub start: bool,
    pub select: bool,
    pub right_trigger: bool,
    pub left_trigger: bool,
    pub d_pad_up: bool,
    pub d_pad_down: bool,
    pub d_pad_left: bool,
    pub d_pad_right: bool,
}

impl ControllerState {
    /// The all-released snapshot every run starts from.
    pub open spec fn spec_default() -> ControllerState {
        ControllerState {
            a: false,
            b: false,
            x: false,
            y: false,
            start: false,
            select: false,
            right_trigger: false,
            left_trigger: false,
            d_pad_up: false,
            d_pad_down: false,
            d_pad_left: false,
            d_pad_right: false,
        }
    }
}

impl Default for ControllerState {
    fn default() -> (r: ControllerState)
        ensures
            r == ControllerState::spec_default(),
    {
        ControllerState {
            a: false,
            b: false,
            x: false,
            y: false,
            start: false,
            select: false,
            right_trigger: false,
            left_trigger: false,
            d_pad_up: false,
            d_pad_down: false,
            d_pad_left: false,
            d_pad_right: false,
        }
    }
}

/// Neither opposite pair of d-pad flags is held at once.
pub open spec fn dpad_consistent(s: ControllerState) -> bool {
    !(s.d_pad_up && s.d_pad_down) && !(s.d_pad_left && s.d_pad_right)
}

/// The snapshot that results from applying one raw event to `s`.
///
/// Direct mappings set their field to "level is fully pressed"; the two
/// d-pad axes resolve their opposite pair so that at most one of the pair
/// is held afterwards; everything else leaves the snapshot unchanged.
pub open spec fn spec_apply(s: ControllerState, ev: GamepadInput) -> ControllerState {
    match ev {
        GamepadInput::ButtonChanged(button, level) => {
            let pressed = level is Pressed;
            match button {
                PadButton::South => ControllerState { b: pressed, ..s },
                PadButton::East => ControllerState { a: pressed, ..s },
                PadButton::North => ControllerState { x: pressed, ..s },
                PadButton::West => ControllerState { y: pressed, ..s },
                PadButton::LeftTrigger => ControllerState { left_trigger: pressed, ..s },
                PadButton::RightTrigger => ControllerState { right_trigger: pressed, ..s },
                PadButton::Select => ControllerState { select: pressed, ..s },
                PadButton::Start => ControllerState { start: pressed, ..s },
                PadButton::DPadUp => match level {
                    ButtonLevel::Released => ControllerState {
                        d_pad_up: true,
                        d_pad_down: false,
                        ..s
                    },
                    ButtonLevel::Pressed => ControllerState {
                        d_pad_up: false,
                        d_pad_down: true,
                        ..s
                    },
                    ButtonLevel::Partial => ControllerState {
                        d_pad_up: false,
                        d_pad_down: false,
                        ..s
                    },
                },
                PadButton::DPadRight => match level {
                    ButtonLevel::Pressed => ControllerState {
                        d_pad_right: true,
                        d_pad_left: false,
                        ..s
                    },
                    ButtonLevel::Released => ControllerState {
                        d_pad_right: false,
                        d_pad_left: true,
                        ..s
                    },
                    ButtonLevel::Partial => ControllerState {
                        d_pad_right: false,
                        d_pad_left: false,
                        ..s
                    },
                },
                PadButton::Other => s,
            }
        }
        GamepadInput::Other => s,
    }
}

/// Folding a whole stream of raw events into a snapshot, oldest first.
pub open spec fn spec_apply_all(s: ControllerState, evs: Seq<GamepadInput>) -> ControllerState
    decreases evs.len(),
{
    if evs.len() == 0 {
        s
    } else {
        spec_apply_all(spec_apply(s, evs[0]), evs.drop_first())
    }
}

/// A d-pad axis event always resolves its opposite pair: after a vertical
/// event at most one of up/down is held, and after a horizontal event at
/// most one of left/right — whatever the snapshot held before.
pub proof fn lemma_dpad_event_resolves(s: ControllerState, level: ButtonLevel)
    ensures
        !(spec_apply(s, GamepadInput::ButtonChanged(PadButton::DPadUp, level)).d_pad_up
            && spec_apply(s, GamepadInput::ButtonChanged(PadButton::DPadUp, level)).d_pad_down),
        !(spec_apply(s, GamepadInput::ButtonChanged(PadButton::DPadRight, level)).d_pad_left
            && spec_apply(s, GamepadInput::ButtonChanged(PadButton::DPadRight, level)).d_pad_right),
{
}

/// No event can break d-pad consistency once it holds.
pub proof fn lemma_apply_preserves_dpad_consistent(s: ControllerState, ev: GamepadInput)
    requires
        dpad_consistent(s),
    ensures
        dpad_consistent(spec_apply(s, ev)),
{
}

/// After any sequence of raw events from a consistent snapshot — in
/// particular from the all-released start — up and down are never both
/// held, and neither are left and right.
pub proof fn lemma_apply_all_dpad_consistent(s: ControllerState, evs: Seq<GamepadInput>)
    requires
        dpad_consistent(s),
    ensures
        dpad_consistent(spec_apply_all(s, evs)),
    decreases evs.len(),
{
    if evs.len() > 0 {
        lemma_apply_preserves_dpad_consistent(s, evs[0]);
        lemma_apply_all_dpad_consistent(spec_apply(s, evs[0]), evs.drop_first());
    }
}

/// A direct-mapped button event sets exactly that button's field — to
/// whether the level is "fully pressed" — and leaves every other field of
/// the snapshot unchanged.
pub proof fn lemma_direct_mapping_isolated(
    s: ControllerState,
    button: PadButton,
    level: ButtonLevel,
)
    requires
        button is South || button is East || button is North || button is West
            || button is LeftTrigger || button is RightTrigger || button is Select
            || button is Start,
    ensures
        ({
            let r = spec_apply(s, GamepadInput::ButtonChanged(button, level));
            let pressed = level is Pressed;
            &&& (button is South ==> r == (ControllerState { b: pressed, ..s }))
            &&& (button is East ==> r == (ControllerState { a: pressed, ..s }))
            &&& (button is North ==> r == (ControllerState { x: pressed, ..s }))
            &&& (button is West ==> r == (ControllerState { y: pressed, ..s }))
            &&& (button is LeftTrigger ==> r == (ControllerState { left_trigger: pressed, ..s }))
            &&& (button is RightTrigger ==> r == (ControllerState { right_trigger: pressed, ..s }))
            &&& (button is Select ==> r == (ControllerState { select: pressed, ..s }))
            &&& (button is Start ==> r == (ControllerState { start: pressed, ..s }))
        }),
{
}

impl ControllerState {
    /// Apply one raw event in place, exactly as `spec_apply` describes.
    pub fn apply_input(&mut self, ev: GamepadInput)
        ensures
            *final(self) == spec_apply(*old(self), ev),
    {
        let next = match ev {
            GamepadInput::ButtonChanged(button, level) => {
                let pressed = matches!(level, ButtonLevel::Pressed);
                match button {
                    PadButton::South => ControllerState { b: pressed, ..*self },
                    PadButton::East => ControllerState { a: pressed, ..*self },
                    PadButton::North => ControllerState { x: pressed, ..*self },
                    PadButton::West => ControllerState { y: pressed, ..*self },
                    PadButton::LeftTrigger => ControllerState { left_trigger: pressed, ..*self },
                    PadButton::RightTrigger => ControllerState { right_trigger: pressed, ..*self },
                    PadButton::Select => ControllerState { select: pressed, ..*self },
                    PadButton::Start => ControllerState { start: pressed, ..*self },
                    PadButton::DPadUp => match level {
                        ButtonLevel::Released => ControllerState {
                            d_pad_up: true,
                            d_pad_down: false,
                            ..*self
                        },
                        ButtonLevel::Pressed => ControllerState {
                            d_pad_up: false,
                            d_pad_down: true,
                            ..*self
                        },
                        ButtonLevel::Partial => ControllerState {
                            d_pad_up: false,
                            d_pad_down: false,
                            ..*self
                        },
                    },
                    PadButton::DPadRight => match level {
                        ButtonLevel::Pressed => ControllerState {
                            d_pad_right: true,
                            d_pad_left: false,
                            ..*self
                        },
                        ButtonLevel::Released => ControllerState {
                            d_pad_right: false,
                            d_pad_left: true,
                            ..*self
                        },
                        ButtonLevel::Partial => ControllerState {
                            d_pad_right: false,
                            d_pad_left: false,
                            ..*self
                        },
                    },
                    PadButton::Other => *self,
                }
            }
            GamepadInput::Other => *self,
        };
        *self = next;
    }

    /// Fold the next polled event, if any, into the snapshot.
    ///
    /// `None` means no event was available on this poll: the snapshot is
    /// untouched and no update is reported.  Otherwise the event is applied
    /// and the updated snapshot is handed back by value for forwarding.
    pub fn from_gamepad_state(&mut self, event: Option<GamepadInput>) -> (r: Option<
        ControllerState,
    >)
        ensures
            event is None ==> *final(self) == *old(self) && r is None,
            event matches Some(ev) ==> *final(self) == spec_apply(*old(self), ev) && r == Some(
                *final(self),
            ),
    {
        match event {
            Some(ev) => {
                self.apply_input(ev);
                Some(self.clone())
            }
            None => None,
        }
    }
}

} // verus!
