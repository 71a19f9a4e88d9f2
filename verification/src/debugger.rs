pub mod command;

use vstd::prelude::*;
use vstd::string::StringSliceAdditionalSpecFns;

use crate::cpu::{run_instruction_spec, CpuView};
use crate::debugger::command::Command;
use crate::error::N64Error;
use crate::n64::N64;

verus! {

/// What the debugger's front end does with a line of input.
#[derive(Debug, Clone, Copy, PartialEq, Eq, Structural)]
pub enum DebuggerAction {
    /// Single-step this many instructions.
    Step(usize),
    /// Leave the debugger.
    Exit,
    /// Nothing to do: an empty line with no earlier command to repeat.
    Idle,
    /// The line is not a command.
    Invalid,
}

/// The action for a parsed line (`None`: the line is not a command) given the
/// last command that was carried out, and the last command afterwards.
///
/// An empty line repeats the last command; a line that is not a command
/// leaves the last command as it was.
pub open spec fn action_spec(last: Option<Command>, parsed: Option<Command>) -> (
    DebuggerAction,
    Option<Command>,
) {
    match parsed {
        None => (DebuggerAction::Invalid, last),
        Some(Command::Step(n)) => (DebuggerAction::Step(n), Some(Command::Step(n))),
        Some(Command::Exit) => (DebuggerAction::Exit, Some(Command::Exit)),
        Some(Command::Repeat) => match last {
            Some(Command::Step(n)) => (DebuggerAction::Step(n), last),
            Some(Command::Exit) => (DebuggerAction::Exit, last),
            _ => (DebuggerAction::Idle, last),
        },
    }
}

/// The state of the debugger: the console under it and the last command.
pub struct DebuggerView {
    pub machine: CpuView,
    pub last_command: Option<Command>,
}

/// An interactive debugger around a console.
pub struct Debugger {
    n64: N64,
    last_command: Option<Command>,
}

impl View for Debugger {
    type V = DebuggerView;

    closed spec fn view(&self) -> DebuggerView {
        DebuggerView { machine: self.n64@, last_command: self.last_command }
    }
}

impl Debugger {
    /// A debugger around `n64`, with no command yet.
    pub fn new(n64: N64) -> (r: Debugger)
        ensures
            r@.machine == n64@,
            r@.last_command is None,
    {
        Debugger { n64, last_command: None }
    }

    /// The console.
    pub fn n64(&self) -> (r: &N64)
        ensures
            r@ == self@.machine,
    {
        &self.n64
    }

    /// The last command carried out (never `Repeat`).
    pub fn last_command(&self) -> (r: Option<Command>)
        ensures
            r == self@.last_command,
    {
        self.last_command
    }

    /// Reads a line of input and decides what to do with it.
    pub fn command_action(&mut self, line: &str) -> (r: DebuggerAction)
        ensures
            r == action_spec(old(self)@.last_command, Command::spec_parse(line.spec_bytes())).0,
            final(self)@.last_command == action_spec(
                old(self)@.last_command,
                Command::spec_parse(line.spec_bytes()),
            ).1,
            final(self)@.machine == old(self)@.machine,
    {
        let parsed = Command::from_str(line);
        match parsed {
            Err(_) => DebuggerAction::Invalid,
            Ok(Command::Step(n)) => {
                self.last_command = Some(Command::Step(n));
                DebuggerAction::Step(n)
            },
            Ok(Command::Exit) => {
                self.last_command = Some(Command::Exit);
                DebuggerAction::Exit
            },
            Ok(Command::Repeat) => match self.last_command {
                Some(Command::Step(n)) => DebuggerAction::Step(n),
                Some(Command::Exit) => DebuggerAction::Exit,
                _ => DebuggerAction::Idle,
            },
        }
    }

    /// Runs one instruction of the console.
    pub fn step(&mut self) -> (r: Result<(), N64Error>)
        ensures
            final(self)@.machine == run_instruction_spec(old(self)@.machine).0,
            r == run_instruction_spec(old(self)@.machine).1,
            final(self)@.last_command == old(self)@.last_command,
    {
        self.n64.step()
    }
}

/// An empty line repeats the last command that was carried out (and does
/// nothing when there is none); a line that is not a command is reported and
/// forgets nothing.
pub proof fn lemma_empty_line_repeats_last_command(last: Option<Command>, any: Option<Command>)
    requires
        !(last matches Some(Command::Repeat)),
    ensures
        Command::spec_parse(Seq::<u8>::empty()) == Some(Command::Repeat),
        action_spec(last, Some(Command::Repeat)).1 == last,
        last is Some ==> action_spec(last, Some(Command::Repeat)).0 == action_spec(any, last).0,
        last is None ==> action_spec(last, Some(Command::Repeat)).0 == DebuggerAction::Idle,
        action_spec(last, None) == (DebuggerAction::Invalid, last),
{
}

/// The command on a line is what the debugger remembers afterwards, whatever
/// it remembered before: so a `Step(n)` or `Exit` line is carried out, and
/// the next empty line carries out that same command again.
pub proof fn lemma_last_line_is_repeated(last: Option<Command>, c: Command)
    requires
        !(c matches Command::Repeat),
    ensures
        action_spec(last, Some(c)).1 == Some(c),
        action_spec(action_spec(last, Some(c)).1, Some(Command::Repeat)).0 == action_spec(
            last,
            Some(c),
        ).0,
        c matches Command::Step(n) ==> action_spec(last, Some(c)).0 == DebuggerAction::Step(n),
        c is Exit ==> action_spec(last, Some(c)).0 == DebuggerAction::Exit,
{
}

} // verus!
