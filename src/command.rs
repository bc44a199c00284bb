//! Remote commands: key events for the emulator and stream control.
use crate::idle::IdleGate;
use crate::text::{digit_value, is_digit, str_eq};
use vstd::prelude::*;

verus! {

/// Whether a key went down or up.
#[allow(non_camel_case_types)]
#[derive(PartialEq, Eq, Structural, Clone, Copy, Debug)]
pub enum InputKind {
    INPUT_KEY_DOWN,
    INPUT_KEY_UP,
}

/// A key event for the emulator: an 8-bit key code and its kind.
#[derive(PartialEq, Eq, Structural, Clone, Copy, Debug)]
pub struct EmuInputEvent {
    pub value: u8,
    pub kind: InputKind,
}

/// A decoded command message: `{"cmd": <name>, "args": [<arg>, ...]}`.
#[derive(Debug)]
pub struct Command {
    pub cmd: String,
    pub args: Vec<String>,
}

/// What a command asks of the emulator.
#[derive(PartialEq, Eq, Structural, Clone, Copy, Debug)]
pub enum CommandAction {
    /// Hand this key event to the emulator and note the input time.
    Input(EmuInputEvent),
    Pause,
    Resume,
    /// A `ctrl` command with a value other than `pause` or `resume`: ignored.
    UnknownControl,
    /// A command name that is neither `key` nor `ctrl`: ignored.
    UnknownCommand,
    /// A `key` or `ctrl` command without a usable argument: discarded.
    Malformed,
}

/// The key event that a `key` argument spells: three decimal digits giving a code from 0
/// to 255, then `d` for down or `u` for up.
pub open spec fn key_event_spec(arg: Seq<char>) -> Option<EmuInputEvent> {
    if arg.len() == 4 && is_digit(arg[0]) && is_digit(arg[1]) && is_digit(arg[2]) && 100
        * digit_value(arg[0]) + 10 * digit_value(arg[1]) + digit_value(arg[2]) <= 255 && (arg[3]
        == 'd' || arg[3] == 'u') {
        Some(
            EmuInputEvent {
                value: (100 * digit_value(arg[0]) + 10 * digit_value(arg[1]) + digit_value(
                    arg[2],
                )) as u8,
                kind: if arg[3] == 'd' {
                    InputKind::INPUT_KEY_DOWN
                } else {
                    InputKind::INPUT_KEY_UP
                },
            },
        )
    } else {
        None
    }
}

/// What a command with name `cmd` and arguments `args` asks for.
pub open spec fn action_spec(cmd: Seq<char>, args: Seq<String>) -> CommandAction {
    if cmd == "key"@ {
        if args.len() == 0 {
            CommandAction::Malformed
        } else {
            match key_event_spec(args[0]@) {
                Some(e) => CommandAction::Input(e),
                None => CommandAction::Malformed,
            }
        }
    } else if cmd == "ctrl"@ {
        if args.len() == 0 {
            CommandAction::Malformed
        } else if args[0]@ == "pause"@ {
            CommandAction::Pause
        } else if args[0]@ == "resume"@ {
            CommandAction::Resume
        } else {
            CommandAction::UnknownControl
        }
    } else {
        CommandAction::UnknownCommand
    }
}

fn digit_of(c: char) -> (r: Option<u8>)
    ensures
        r matches Some(d) ==> is_digit(c) && d as int == digit_value(c),
        r is None ==> !is_digit(c),
{
    if '0' <= c && c <= '9' {
        Some((c as u32 - '0' as u32) as u8)
    } else {
        None
    }
}

/// Reads the argument of a `key` command, such as `053d` (key 53 down) or `001u`
/// (key 1 up). Anything else gives `None`.
pub fn parse_key_arg(arg: &str) -> (r: Option<EmuInputEvent>)
    ensures
        r == key_event_spec(arg@),
{
    if arg.unicode_len() != 4 {
        return None;
    }
    let d0 = digit_of(arg.get_char(0));
    let d1 = digit_of(arg.get_char(1));
    let d2 = digit_of(arg.get_char(2));
    let last = arg.get_char(3);
    match (d0, d1, d2) {
        (Some(a), Some(b), Some(c)) => {
            let value: u32 = 100 * (a as u32) + 10 * (b as u32) + (c as u32);
            if value > 255 {
                None
            } else if last == 'd' {
                Some(EmuInputEvent { value: value as u8, kind: InputKind::INPUT_KEY_DOWN })
            } else if last == 'u' {
                Some(EmuInputEvent { value: value as u8, kind: InputKind::INPUT_KEY_UP })
            } else {
                None
            }
        },
        _ => None,
    }
}

impl Command {
    /// What this command asks of the emulator.
    pub fn action(&self) -> (r: CommandAction)
        ensures
            r == action_spec(self.cmd@, self.args@),
    {
        let cmd = self.cmd.as_str();
        if str_eq(cmd, "key") {
            if self.args.len() == 0 {
                CommandAction::Malformed
            } else {
                match parse_key_arg(self.args[0].as_str()) {
                    Some(e) => CommandAction::Input(e),
                    None => CommandAction::Malformed,
                }
            }
        } else if str_eq(cmd, "ctrl") {
            if self.args.len() == 0 {
                CommandAction::Malformed
            } else {
                let val = self.args[0].as_str();
                if str_eq(val, "pause") {
                    CommandAction::Pause
                } else if str_eq(val, "resume") {
                    CommandAction::Resume
                } else {
                    CommandAction::UnknownControl
                }
            }
        } else {
            CommandAction::UnknownCommand
        }
    }

    /// Decides what this command, received at `now`, asks of the emulator. A key event
    /// also counts as input for the idle gate; nothing else touches it.
    pub fn dispatch(&self, gate: &mut IdleGate, now: u64) -> (r: CommandAction)
        ensures
            r == action_spec(self.cmd@, self.args@),
            final(gate).threshold_secs == old(gate).threshold_secs,
            final(gate).last_input == if r is Input {
                now
            } else {
                old(gate).last_input
            },
    {
        let action = self.action();
        if let CommandAction::Input(_) = action {
            gate.record_input(now);
        }
        action
    }
}

} // verus!
