use vstd::prelude::*;

verus! {

/// The state of one button or joystick flick in one frame.
#[derive(Copy, Clone, PartialEq, Eq, Debug, Structural)]
pub struct ButtonState {
    /// The button is held down.
    pub down: bool,
    /// The button went down this frame.
    pub pressed: bool,
    /// The button went up this frame.
    pub released: bool,
}

/// A button change reported by the hardware in one frame.
#[derive(Copy, Clone, PartialEq, Eq, Debug, Structural)]
pub enum ButtonEvent {
    AUp,
    ADown,
    BUp,
    BDown,
    StartUp,
    StartDown,
    SelectUp,
    SelectDown,
}

/// The state of every input in one frame.
#[derive(Copy, Clone, PartialEq, Eq, Debug, Structural)]
pub struct InputState {
    /// Joystick readings, centred on zero, in `[-2048, 2047]`.
    pub js_x: i16,
    pub js_y: i16,
    /// Joystick flicks.
    pub js_up: ButtonState,
    pub js_down: ButtonState,
    pub js_left: ButtonState,
    pub js_right: ButtonState,
    /// Buttons.
    pub btn_a: ButtonState,
    pub btn_b: ButtonState,
    pub btn_start: ButtonState,
    pub btn_select: ButtonState,
}

/// A button neither held nor changed.
pub open spec fn idle() -> ButtonState {
    ButtonState { down: false, pressed: false, released: false }
}

/// A button released this frame.
pub open spec fn released_now() -> ButtonState {
    ButtonState { down: false, pressed: false, released: true }
}

/// A button pressed this frame.
pub open spec fn pressed_now() -> ButtonState {
    ButtonState { down: true, pressed: true, released: false }
}

impl ButtonState {
    /// A button neither held nor changed.
    pub fn new() -> (r: ButtonState)
        ensures
            r == idle(),
    {
        ButtonState { down: false, pressed: false, released: false }
    }

    /// A button released this frame.
    pub fn up() -> (r: ButtonState)
        ensures
            r == released_now(),
    {
        ButtonState { down: false, pressed: false, released: true }
    }

    /// A button pressed this frame.
    pub fn down() -> (r: ButtonState)
        ensures
            r == pressed_now(),
    {
        ButtonState { down: true, pressed: true, released: false }
    }
}

impl InputState {
    /// No input at all: joystick centred, nothing held or changed.
    pub fn new() -> (r: InputState)
        ensures
            r == (InputState {
                js_x: 0,
                js_y: 0,
                js_up: idle(),
                js_down: idle(),
                js_left: idle(),
                js_right: idle(),
                btn_a: idle(),
                btn_b: idle(),
                btn_start: idle(),
                btn_select: idle(),
            }),
    {
        InputState {
            js_x: 0,
            js_y: 0,
            js_up: ButtonState::new(),
            js_down: ButtonState::new(),
            js_left: ButtonState::new(),
            js_right: ButtonState::new(),
            btn_a: ButtonState::new(),
            btn_b: ButtonState::new(),
            btn_start: ButtonState::new(),
            btn_select: ButtonState::new(),
        }
    }
}

/// A joystick axis beyond this distance from the centre is flicked.
pub const FLICK_THRESHOLD: i16 = 1536;

/// A flick ends when its axis comes back within this distance of the centre.
pub const DEAD_ZONE: i16 = 512;

/// The flick state of one joystick direction, given how far the axis lies in
/// that direction and whether the flick was held last frame: a flick starts
/// beyond the flick threshold and ends back inside the dead zone.
pub open spec fn flick_of(extent: int, was_down: bool) -> ButtonState {
    if !was_down && extent > FLICK_THRESHOLD {
        pressed_now()
    } else if was_down && extent < DEAD_ZONE {
        released_now()
    } else {
        ButtonState { down: was_down, pressed: false, released: false }
    }
}

/// The state of a button after this frame's events: the last event for it
/// decides whether it was pressed or released this frame, and `held` whether
/// it is down now.
pub open spec fn button_of(events: Seq<ButtonEvent>, up: ButtonEvent, down: ButtonEvent, held: bool) -> ButtonState
    decreases events.len(),
{
    if events.len() == 0 {
        ButtonState { down: held, ..idle() }
    } else if events.last() == up {
        ButtonState { down: held, ..released_now() }
    } else if events.last() == down {
        ButtonState { down: held, ..pressed_now() }
    } else {
        button_of(events.drop_last(), up, down, held)
    }
}

/// The input of a frame from the raw readings: the button events of the
/// frame, the held buttons (bit 0 select, bit 1 start, bit 2 A, bit 3 B), the
/// two joystick readings in `[0, 4095]`, and the previous frame's input.
pub open spec fn input_of(events: Seq<ButtonEvent>, held: u8, raw_x: u16, raw_y: u16, last: InputState) -> InputState {
    let x = raw_x - 2048;
    let y = raw_y - 2048;
    InputState {
        js_x: x as i16,
        js_y: y as i16,
        js_up: flick_of(y, last.js_up.down),
        js_down: flick_of(-y, last.js_down.down),
        js_left: flick_of(-x, last.js_left.down),
        js_right: flick_of(x, last.js_right.down),
        btn_a: button_of(events, ButtonEvent::AUp, ButtonEvent::ADown, held & 0x04 != 0),
        btn_b: button_of(events, ButtonEvent::BUp, ButtonEvent::BDown, held & 0x08 != 0),
        btn_start: button_of(events, ButtonEvent::StartUp, ButtonEvent::StartDown, held & 0x02 != 0),
        btn_select: button_of(events, ButtonEvent::SelectUp, ButtonEvent::SelectDown, held & 0x01 != 0),
    }
}

fn flick(extent: i16, was_down: bool) -> (r: ButtonState)
    ensures
        r == flick_of(extent as int, was_down),
{
    let mut state = ButtonState { down: was_down, pressed: false, released: false };
    if extent < DEAD_ZONE && was_down {
        state = ButtonState::up();
    }
    if extent > FLICK_THRESHOLD && !was_down {
        state = ButtonState::down();
    }
    state
}

fn button(events: &Vec<ButtonEvent>, up: ButtonEvent, down: ButtonEvent, held: bool) -> (r: ButtonState)
    ensures
        r == button_of(events@, up, down, held),
{
    let mut state = ButtonState::new();
    let mut i: usize = 0;
    while i < events.len()
        invariant
            i <= events@.len(),
            (ButtonState { down: held, ..state }) == button_of(events@.take(i as int), up, down, held),
        decreases events.len() - i,
    {
        proof {
            assert(events@.take(i + 1).drop_last() =~= events@.take(i as int));
        }
        if events[i] == up {
            state = ButtonState::up();
        } else if events[i] == down {
            state = ButtonState::down();
        }
        i += 1;
    }
    proof {
        assert(events@.take(i as int) =~= events@);
    }
    state.down = held;
    state
}

/// Builds a frame's input from the raw readings: buttons from the frame's
/// events and the held mask (bit 0 select, bit 1 start, bit 2 A, bit 3 B),
/// joystick readings from the raw 12-bit values, and joystick flicks from
/// the readings and the previous frame's flicks.
pub fn input_from_readings(
    events: &Vec<ButtonEvent>,
    held: u8,
    raw_x: u16,
    raw_y: u16,
    last: &InputState,
) -> (r: InputState)
    requires
        raw_x <= 4095,
        raw_y <= 4095,
    ensures
        r == input_of(events@, held, raw_x, raw_y, *last),
{
    let x = (raw_x as i16) - 2048i16;
    let y = (raw_y as i16) - 2048i16;
    InputState {
        js_x: x,
        js_y: y,
        js_up: flick(y, last.js_up.down),
        js_down: flick(-y, last.js_down.down),
        js_left: flick(-x, last.js_left.down),
        js_right: flick(x, last.js_right.down),
        btn_a: button(events, ButtonEvent::AUp, ButtonEvent::ADown, held & 0x04 != 0),
        btn_b: button(events, ButtonEvent::BUp, ButtonEvent::BDown, held & 0x08 != 0),
        btn_start: button(events, ButtonEvent::StartUp, ButtonEvent::StartDown, held & 0x02 != 0),
        btn_select: button(events, ButtonEvent::SelectUp, ButtonEvent::SelectDown, held & 0x01 != 0),
    }
}

} // verus!
