//! The decisions of the shell around its event loop: what the debug hook asks
//! of the main window, which commands the shell serves, and how a fault at
//! start-up ends the process. The shell itself performs the steps and reports
//! back what it found.

use crate::clock::{get_current_time_iso, get_current_timestamp, is_clock_text};
use vstd::prelude::*;
use vstd::string::StringExecFns;

verus! {

/// The exit status of a process that ended on a start-up fault.
pub const FAULT_EXIT_CODE: i32 = 101;

/// One request to the main window's developer-tools panel.
#[derive(Clone, Copy, Debug, PartialEq, Eq, Structural)]
pub enum HookStep {
    OpenDevtools,
    CloseDevtools,
}

/// What can go wrong at start-up. Neither is recovered from.
#[derive(Clone, Copy, Debug, PartialEq, Eq, Structural)]
pub enum StartupFault {
    /// No window carries the main window's label.
    MainWindowMissing,
    /// The event loop did not start.
    EventLoopFailed,
}

/// A command that the front end can invoke.
#[derive(Clone, Copy, Debug, PartialEq, Eq, Structural)]
pub enum Command {
    CurrentTimeIso,
    CurrentTimestamp,
}

/// The command registered under `name`, if any.
pub open spec fn command_named(name: Seq<char>) -> Option<Command> {
    if name == "get_current_time_iso"@ {
        Some(Command::CurrentTimeIso)
    } else if name == "get_current_timestamp"@ {
        Some(Command::CurrentTimestamp)
    } else {
        None
    }
}

/// The diagnostic that goes to standard error for `fault`.
pub open spec fn diagnostic_text(fault: StartupFault) -> Seq<char> {
    match fault {
        StartupFault::MainWindowMissing => "called `Option::unwrap()` on a `None` value"@,
        StartupFault::EventLoopFailed => "error while running tauri application"@,
    }
}

/// The label under which the shell looks up its main window.
pub fn main_window_label() -> (r: &'static str)
    ensures
        r@ == "main"@,
{
    "main"
}

/// The steps of the start-up hook. A release build asks for nothing. A debug
/// build opens the developer tools of the main window and closes them at once;
/// where there is no main window, that is a fault.
pub fn debug_hook_steps(debug_build: bool, main_window_found: bool) -> (r: Result<
    Vec<HookStep>,
    StartupFault,
>)
    ensures
        !debug_build ==> r is Ok && r.unwrap()@ == Seq::<HookStep>::empty(),
        debug_build && main_window_found ==> r is Ok && r.unwrap()@ == seq![
            HookStep::OpenDevtools,
            HookStep::CloseDevtools,
        ],
        debug_build && !main_window_found ==> r == Err::<Vec<HookStep>, StartupFault>(
            StartupFault::MainWindowMissing,
        ),
{
    if !debug_build {
        Ok(Vec::new())
    } else if main_window_found {
        let mut steps: Vec<HookStep> = Vec::new();
        steps.push(HookStep::OpenDevtools);
        steps.push(HookStep::CloseDevtools);
        assert(steps@ =~= seq![HookStep::OpenDevtools, HookStep::CloseDevtools]);
        Ok(steps)
    } else {
        Err(StartupFault::MainWindowMissing)
    }
}

/// What the shell's run came to: the hook's fault if it had one, else a fault
/// of the event loop if it did not start, else success.
pub fn startup_outcome(
    debug_build: bool,
    main_window_found: bool,
    event_loop_started: bool,
) -> (r: Result<(), StartupFault>)
    ensures
        debug_build && !main_window_found ==> r == Err::<(), StartupFault>(
            StartupFault::MainWindowMissing,
        ),
        (!debug_build || main_window_found) && !event_loop_started ==> r == Err::<
            (),
            StartupFault,
        >(StartupFault::EventLoopFailed),
        (!debug_build || main_window_found) && event_loop_started ==> r == Ok::<
            (),
            StartupFault,
        >(()),
{
    match debug_hook_steps(debug_build, main_window_found) {
        Err(fault) => Err(fault),
        Ok(_) => {
            if event_loop_started {
                Ok(())
            } else {
                Err(StartupFault::EventLoopFailed)
            }
        },
    }
}

/// The exit status for an outcome: zero for success alone.
pub fn exit_code(outcome: Result<(), StartupFault>) -> (r: i32)
    ensures
        outcome is Ok ==> r == 0,
        outcome is Err ==> r == FAULT_EXIT_CODE,
{
    match outcome {
        Ok(_) => 0,
        Err(_) => FAULT_EXIT_CODE,
    }
}

/// The diagnostic for `fault`.
pub fn diagnostic(fault: StartupFault) -> (r: &'static str)
    ensures
        r@ == diagnostic_text(fault),
{
    match fault {
        StartupFault::MainWindowMissing => "called `Option::unwrap()` on a `None` value",
        StartupFault::EventLoopFailed => "error while running tauri application",
    }
}

/// Whether two texts are the same.
fn same_text(a: &str, b: &str) -> (r: bool)
    ensures
        r == (a@ == b@),
{
    String::from_str(a) == String::from_str(b)
}

/// Finds the command registered under `name`.
pub fn lookup_command(name: &str) -> (r: Option<Command>)
    ensures
        r == command_named(name@),
{
    if same_text(name, "get_current_time_iso") {
        Some(Command::CurrentTimeIso)
    } else if same_text(name, "get_current_timestamp") {
        Some(Command::CurrentTimestamp)
    } else {
        None
    }
}

/// Runs `command`: each of the two answers with the text of a reading of the
/// clock.
pub fn run_command(command: Command) -> (s: String)
    ensures
        is_clock_text(s@),
{
    match command {
        Command::CurrentTimeIso => get_current_time_iso(),
        Command::CurrentTimestamp => get_current_timestamp(),
    }
}

/// Serves an invocation by name: the answer of the command registered under
/// `name`, and `None` where none is.
pub fn invoke(name: &str) -> (r: Option<String>)
    ensures
        r is Some <==> command_named(name@) is Some,
        r is Some ==> is_clock_text(r.unwrap()@),
{
    match lookup_command(name) {
        Some(command) => Some(run_command(command)),
        None => None,
    }
}

} // verus!
