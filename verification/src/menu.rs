//! Picking one entry of a list with the joystick.
//!
//! The host polls the joystick and the confirm button and hands each reading
//! to [`update`]. A push past [`MOVE_THRESHOLD`] moves the selection by one
//! entry and starts a cooldown, so that one long push moves it once. The
//! cooldown ends when the stick comes back within [`RELEASE_THRESHOLD`] of
//! the centre, or after [`COOLDOWN_POLLS`] readings, whichever is first.

use vstd::prelude::*;

verus! {

/// Deflection beyond which the selection moves. The bound itself does not
/// count as a push.
pub const MOVE_THRESHOLD: i16 = 1400;

/// Deflection below which the stick counts as back at the centre.
pub const RELEASE_THRESHOLD: i16 = 800;

/// Longest cooldown, in readings.
pub const COOLDOWN_POLLS: u8 = 16;

/// Pause the host makes after a reading that leaves the cooldown running.
pub const COOLDOWN_DELAY_MS: u16 = 10;

/// What the menu keeps from one reading to the next.
#[derive(Clone, Copy, Debug, PartialEq, Eq, Structural)]
pub struct MenuState {
    /// The highlighted entry.
    pub selected_index: usize,
    /// Set by a move of the selection; while set, the selection stays.
    pub cooldown_active: bool,
    /// Readings taken in the running cooldown; zero when none is running.
    pub cooldown_polls: u8,
}

/// Why a reading was refused.
#[derive(Clone, Copy, Debug, PartialEq, Eq, Structural)]
pub enum MenuError {
    /// The menu has no entries.
    InvalidArgument,
}

/// What the host does after a reading.
#[derive(Clone, Copy, Debug, PartialEq, Eq, Structural)]
pub enum Action {
    /// Leave the menu with this entry.
    Finish(usize),
    /// Draw the menu and show the frame.
    Render,
    /// Pause for [`COOLDOWN_DELAY_MS`], then read again.
    Delay,
    /// Read again at once.
    Resume,
}

/// A reading's outcome: the state to go on with and what to do first.
#[derive(Clone, Copy, Debug, PartialEq, Eq, Structural)]
pub struct Step {
    pub state: MenuState,
    pub action: Action,
}

/// The direction a reading pushes the selection: `-1` up the list, `1` down
/// it, `0` when the stick is within the threshold, bounds included.
pub open spec fn deflection(joystick_y: i16) -> int {
    if joystick_y < -MOVE_THRESHOLD {
        -1
    } else if joystick_y > MOVE_THRESHOLD {
        1
    } else {
        0
    }
}

/// Whether the stick is back at the centre: `|joystick_y|` below the release
/// threshold.
pub open spec fn released(joystick_y: i16) -> bool {
    -RELEASE_THRESHOLD < joystick_y < RELEASE_THRESHOLD
}

/// An index brought back into `0..option_count`: one below the first entry
/// is the last, one past the last is the first.
pub open spec fn wrap_index(index: int, option_count: int) -> int {
    if index < 0 {
        option_count - 1
    } else if index >= option_count {
        0
    } else {
        index
    }
}

impl MenuState {
    /// A state that fits a menu of `option_count` entries.
    pub open spec fn valid(self, option_count: usize) -> bool {
        &&& self.selected_index < option_count
        &&& self.cooldown_polls < COOLDOWN_POLLS
        &&& !self.cooldown_active ==> self.cooldown_polls == 0
    }

    /// The state after one reading, for a menu that has entries.
    ///
    /// The confirm button changes nothing. During a cooldown the selection
    /// stays and only the cooldown advances. Otherwise a push moves the
    /// selection and starts a cooldown.
    pub open spec fn next(self, joystick_y: i16, button_edge: bool, option_count: usize) -> MenuState {
        let here = wrap_index(self.selected_index as int, option_count as int) as usize;
        if button_edge {
            MenuState { selected_index: here, ..self }
        } else if self.cooldown_active {
            if released(joystick_y) || self.cooldown_polls + 1 >= COOLDOWN_POLLS {
                MenuState { selected_index: here, cooldown_active: false, cooldown_polls: 0 }
            } else {
                MenuState {
                    selected_index: here,
                    cooldown_active: true,
                    cooldown_polls: (self.cooldown_polls + 1) as u8,
                }
            }
        } else if deflection(joystick_y) != 0 {
            MenuState {
                selected_index: wrap_index(
                    here + deflection(joystick_y),
                    option_count as int,
                ) as usize,
                cooldown_active: true,
                cooldown_polls: 0,
            }
        } else {
            MenuState { selected_index: here, ..self }
        }
    }

    /// The entry a reading settles on, if it does: the selection, when the
    /// confirm button was pressed.
    pub open spec fn choice(self, button_edge: bool, option_count: usize) -> Option<usize> {
        if button_edge {
            Some(wrap_index(self.selected_index as int, option_count as int) as usize)
        } else {
            None
        }
    }

    /// What the host does after a reading taken in this state.
    pub open spec fn plan(self, joystick_y: i16, button_edge: bool, option_count: usize) -> Action {
        if button_edge {
            Action::Finish(wrap_index(self.selected_index as int, option_count as int) as usize)
        } else if !self.cooldown_active {
            Action::Render
        } else if released(joystick_y) {
            Action::Resume
        } else {
            Action::Delay
        }
    }

    /// The state a menu starts in: first entry, no cooldown.
    pub fn new() -> (state: MenuState)
        ensures
            state == (MenuState { selected_index: 0, cooldown_active: false, cooldown_polls: 0 }),
            forall|option_count: usize| option_count > 0 ==> state.valid(option_count),
    {
        MenuState { selected_index: 0, cooldown_active: false, cooldown_polls: 0 }
    }
}

/// Whether `joystick_y` is within the release threshold of the centre.
fn is_released(joystick_y: i16) -> (r: bool)
    ensures
        r == released(joystick_y),
{
    -RELEASE_THRESHOLD < joystick_y && joystick_y < RELEASE_THRESHOLD
}

/// The selection `here` moved by the push of `joystick_y`, wrapping at both
/// ends of the list.
fn moved(here: usize, joystick_y: i16, option_count: usize) -> (index: usize)
    requires
        here < option_count,
    ensures
        index == wrap_index(here + deflection(joystick_y), option_count as int),
        index < option_count,
{
    if joystick_y < -MOVE_THRESHOLD {
        if here == 0 {
            option_count - 1
        } else {
            here - 1
        }
    } else if joystick_y > MOVE_THRESHOLD {
        if here + 1 >= option_count {
            0
        } else {
            here + 1
        }
    } else {
        here
    }
}

/// Takes one reading of the joystick and the confirm button.
///
/// Fails on a menu without entries. Otherwise returns the next state and,
/// when the confirm button was pressed, the chosen entry.
pub fn update(joystick_y: i16, button_edge: bool, option_count: usize, state: MenuState) -> (result:
    Result<(MenuState, Option<usize>), MenuError>)
    ensures
        option_count == 0 ==> result == Err::<(MenuState, Option<usize>), MenuError>(
            MenuError::InvalidArgument,
        ),
        option_count > 0 ==> result == Ok::<(MenuState, Option<usize>), MenuError>(
            (
                state.next(joystick_y, button_edge, option_count),
                state.choice(button_edge, option_count),
            ),
        ),
        option_count > 0 ==> state.next(joystick_y, button_edge, option_count).selected_index
            < option_count,
{
    if option_count == 0 {
        return Err(MenuError::InvalidArgument);
    }
    let here = if state.selected_index < option_count {
        state.selected_index
    } else {
        0
    };
    if button_edge {
        return Ok((MenuState { selected_index: here, ..state }, Some(here)));
    }
    let next = if state.cooldown_active {
        if is_released(joystick_y) || state.cooldown_polls >= COOLDOWN_POLLS - 1 {
            MenuState { selected_index: here, cooldown_active: false, cooldown_polls: 0 }
        } else {
            MenuState {
                selected_index: here,
                cooldown_active: true,
                cooldown_polls: state.cooldown_polls + 1,
            }
        }
    } else if joystick_y < -MOVE_THRESHOLD || joystick_y > MOVE_THRESHOLD {
        MenuState {
            selected_index: moved(here, joystick_y, option_count),
            cooldown_active: true,
            cooldown_polls: 0,
        }
    } else {
        MenuState { selected_index: here, ..state }
    };
    Ok((next, None))
}

/// Takes one reading, as [`update`] does, and says what the host does next.
pub fn poll(joystick_y: i16, button_edge: bool, option_count: usize, state: MenuState) -> (result:
    Result<Step, MenuError>)
    ensures
        option_count == 0 ==> result == Err::<Step, MenuError>(MenuError::InvalidArgument),
        option_count > 0 ==> result == Ok::<Step, MenuError>(
            Step {
                state: state.next(joystick_y, button_edge, option_count),
                action: state.plan(joystick_y, button_edge, option_count),
            },
        ),
{
    match update(joystick_y, button_edge, option_count, state) {
        Err(e) => Err(e),
        Ok((next, chosen)) => {
            let action = match chosen {
                Some(index) => Action::Finish(index),
                None => {
                    if !state.cooldown_active {
                        Action::Render
                    } else if is_released(joystick_y) {
                        Action::Resume
                    } else {
                        Action::Delay
                    }
                },
            };
            Ok(Step { state: next, action })
        },
    }
}

} // verus!
