//! Mode arbiter: the commanded operating state of the pack and the
//! transmit rules around it.

use vstd::prelude::*;

verus! {

/// Commanded operating state of the battery pack. `Idle` is the
/// initial, no-request state.
#[derive(Clone, Copy, Debug, PartialEq, Eq, Structural)]
pub enum Mode {
    Idle,
    Sleep,
    Charge,
    Drive,
}

/// What the periodic/heartbeat path may send for a given mode: every
/// mode re-sends itself, except `Sleep`, which suppresses the heartbeat
/// entirely — a frame sent to a sleeping pack would wake it.
pub open spec fn spec_tick_command(mode: Mode) -> Option<Mode> {
    if mode is Sleep {
        None
    } else {
        Some(mode)
    }
}

/// Periodic transmit decision: re-send the current mode, unless the
/// pack is asleep.
pub fn tick_command(mode: Mode) -> (cmd: Option<Mode>)
    ensures
        cmd == spec_tick_command(mode),
{
    match mode {
        Mode::Sleep => None,
        _ => Some(mode),
    }
}

/// What a keypress asks of the monitor.
#[derive(Clone, Copy, Debug, PartialEq, Eq, Structural)]
pub enum KeyCommand {
    Quit,
    SetMode(Mode),
    Ignore,
}

/// The keyboard control surface: `q` quits, `s`/`c`/`d`/`n` select a
/// mode, anything else is ignored.
pub open spec fn spec_key_command(key: char) -> KeyCommand {
    if key == 'q' {
        KeyCommand::Quit
    } else if key == 's' {
        KeyCommand::SetMode(Mode::Sleep)
    } else if key == 'c' {
        KeyCommand::SetMode(Mode::Charge)
    } else if key == 'd' {
        KeyCommand::SetMode(Mode::Drive)
    } else if key == 'n' {
        KeyCommand::SetMode(Mode::Idle)
    } else {
        KeyCommand::Ignore
    }
}

/// Maps a pressed key to its command.
pub fn key_command(key: char) -> (cmd: KeyCommand)
    ensures
        cmd == spec_key_command(key),
{
    match key {
        'q' => KeyCommand::Quit,
        's' => KeyCommand::SetMode(Mode::Sleep),
        'c' => KeyCommand::SetMode(Mode::Charge),
        'd' => KeyCommand::SetMode(Mode::Drive),
        'n' => KeyCommand::SetMode(Mode::Idle),
        _ => KeyCommand::Ignore,
    }
}

} // verus!
