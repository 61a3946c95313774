//! Readings of the joystick and the buttons, turned into what the rest of
//! the library works on.

use vstd::prelude::*;

verus! {

/// A change of one button since the buttons were last read.
#[derive(Clone, Copy, Debug, PartialEq, Eq, Structural)]
pub enum Keys {
    SelectDown,
    SelectUp,
    StartDown,
    StartUp,
    BDown,
    BUp,
    ADown,
    AUp,
}

/// What the joystick reads on either axis when left alone.
pub const JOYSTICK_CENTER: i16 = 2048;

/// A sample read as a signed number of sixteen bits.
pub open spec fn signed(raw: u16) -> int {
    if raw < 0x8000 {
        raw as int
    } else {
        raw - 0x1_0000
    }
}

/// Whether the distance of a sample from the centre fits an `i16`. Every
/// sample of the twelve-bit converter does.
pub open spec fn centers(raw: u16) -> bool {
    signed(raw) - JOYSTICK_CENTER >= i16::MIN
}

/// How often the select button went down in `events`.
pub open spec fn select_presses(events: Seq<Keys>) -> nat
    decreases events.len(),
{
    if events.len() == 0 {
        0
    } else {
        select_presses(events.drop_last()) + if events.last() == Keys::SelectDown {
            1nat
        } else {
            0nat
        }
    }
}

/// Whether [`center_axis`] takes `raw`: whether its distance from the centre
/// fits an `i16`.
pub fn can_center(raw: u16) -> (ok: bool)
    ensures
        ok == centers(raw),
{
    raw < 0x8000 || raw >= 0x8800
}

/// The deflection of one axis: the sample, read as signed, less the centre.
pub fn center_axis(raw: u16) -> (deflection: i16)
    requires
        centers(raw),
    ensures
        deflection == signed(raw) - JOYSTICK_CENTER,
{
    if raw < 0x8000 {
        raw as i16 - JOYSTICK_CENTER
    } else {
        let below: i16 = (raw - 0x8000) as i16;
        below - JOYSTICK_CENTER + i16::MIN
    }
}

/// The deflection of both axes, `x` first. Zero is the centre, and a full
/// push reads about 2048 either way.
pub fn joystick_centered(raw_x: u16, raw_y: u16) -> (deflection: (i16, i16))
    requires
        centers(raw_x),
        centers(raw_y),
    ensures
        deflection.0 == signed(raw_x) - JOYSTICK_CENTER,
        deflection.1 == signed(raw_y) - JOYSTICK_CENTER,
{
    (center_axis(raw_x), center_axis(raw_y))
}

/// Whether `button` is among `events`.
pub fn button_pressed(events: &[Keys], button: Keys) -> (pressed: bool)
    ensures
        pressed == events@.contains(button),
{
    let mut i: usize = 0;
    while i < events.len()
        invariant
            i <= events.len(),
            forall|k: int| 0 <= k < i ==> events@[k] != button,
        decreases events.len() - i,
    {
        if events[i] == button {
            return true;
        }
        i += 1;
    }
    false
}

/// Whether `events` ends a wait for a key: the A or the B button went down.
pub fn key_pressed(events: &[Keys]) -> (pressed: bool)
    ensures
        pressed == (events@.contains(Keys::ADown) || events@.contains(Keys::BDown)),
{
    button_pressed(events, Keys::ADown) || button_pressed(events, Keys::BDown)
}

/// A switch after `events`: it flips each time the select button goes down.
pub fn toggled(on: bool, events: &[Keys]) -> (after: bool)
    ensures
        after == (on != (select_presses(events@) % 2 == 1)),
{
    let mut after = on;
    let mut i: usize = 0;
    while i < events.len()
        invariant
            i <= events.len(),
            after == (on != (select_presses(events@.take(i as int)) % 2 == 1)),
        decreases events.len() - i,
    {
        assert(events@.take(i + 1).drop_last() =~= events@.take(i as int));
        if events[i] == Keys::SelectDown {
            after = !after;
        }
        i += 1;
    }
    assert(events@.take(i as int) =~= events@);
    after
}

} // verus!
