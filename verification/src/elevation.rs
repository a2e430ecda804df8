//! Start-up with elevated rights: what to do once it is known whether the
//! process is elevated, and once a relaunch with elevation was tried.
//!
//! The host asks the operating system and launches the process; the
//! decisions are taken here. Whatever happens, a process that ends at this
//! stage ends with exit code 0: declining elevation is a choice, not a crash.

use vstd::prelude::*;
use crate::notify::{error_notification, error_notification_of, Notification, NotificationView};
use crate::wizard::EXIT_CODE;

verus! {

/// Why the process could not get elevated rights; each holds the cause as
/// the operating system gave it.
#[derive(Clone, Debug, PartialEq, Eq)]
pub enum ElevationError {
    /// The elevation facilities could not be queried or used.
    PlatformError(String),
    /// The user declined the elevation prompt.
    ElevationDenied(String),
}

/// An elevation error as a mathematical value.
pub enum ElevationErrorView {
    PlatformError(Seq<char>),
    ElevationDenied(Seq<char>),
}

impl View for ElevationError {
    type V = ElevationErrorView;

    open spec fn view(&self) -> ElevationErrorView {
        match *self {
            ElevationError::PlatformError(cause) => ElevationErrorView::PlatformError(cause@),
            ElevationError::ElevationDenied(cause) => ElevationErrorView::ElevationDenied(cause@),
        }
    }
}

impl ElevationErrorView {
    /// The cause that the operating system gave.
    pub open spec fn cause(self) -> Seq<char> {
        match self {
            ElevationErrorView::PlatformError(cause) => cause,
            ElevationErrorView::ElevationDenied(cause) => cause,
        }
    }
}

impl ElevationError {
    /// The cause that the operating system gave.
    pub fn cause(&self) -> (cause: String)
        ensures
            cause@ == self@.cause(),
    {
        match self {
            ElevationError::PlatformError(cause) => cause.clone(),
            ElevationError::ElevationDenied(cause) => cause.clone(),
        }
    }
}

/// The launch of this program anew, with elevated rights.
#[derive(Clone, Debug, PartialEq, Eq)]
pub struct RelaunchCommand {
    /// The path of the executable.
    pub program: String,
    /// The arguments to pass on.
    pub args: Vec<String>,
    /// Whether elevation is asked for in a graphical prompt, not a console.
    pub gui: bool,
}

/// A relaunch as a mathematical value.
pub struct RelaunchCommandView {
    pub program: Seq<char>,
    pub args: Seq<Seq<char>>,
    pub gui: bool,
}

impl View for RelaunchCommand {
    type V = RelaunchCommandView;

    open spec fn view(&self) -> RelaunchCommandView {
        RelaunchCommandView {
            program: self.program@,
            args: self.args.deep_view(),
            gui: self.gui,
        }
    }
}

/// What the host is to do next at start-up.
#[derive(Clone, Debug, PartialEq, Eq)]
pub enum StartupAction {
    /// The process is elevated: build the wizard.
    Proceed,
    /// Launch the program again with elevation, and report how that went.
    Relaunch,
    /// End this process with this exit code, building nothing.
    Exit(i32),
    /// Show the notification, then end this process with this exit code.
    NotifyAndExit(Notification, i32),
}

/// A start-up action as a mathematical value.
pub enum StartupActionView {
    Proceed,
    Relaunch,
    Exit(i32),
    NotifyAndExit(NotificationView, i32),
}

impl View for StartupAction {
    type V = StartupActionView;

    open spec fn view(&self) -> StartupActionView {
        match *self {
            StartupAction::Proceed => StartupActionView::Proceed,
            StartupAction::Relaunch => StartupActionView::Relaunch,
            StartupAction::Exit(code) => StartupActionView::Exit(code),
            StartupAction::NotifyAndExit(notification, code) => StartupActionView::NotifyAndExit(
                notification@,
                code,
            ),
        }
    }
}

/// The result of the elevation check as a mathematical value.
pub open spec fn check_view(check: Result<bool, ElevationError>) -> Result<
    bool,
    ElevationErrorView,
> {
    match check {
        Ok(elevated) => Ok(elevated),
        Err(error) => Err(error@),
    }
}

/// The result of a relaunch as a mathematical value.
pub open spec fn relaunch_view(result: Result<(), ElevationError>) -> Result<
    (),
    ElevationErrorView,
> {
    match result {
        Ok(_) => Ok(()),
        Err(error) => Err(error@),
    }
}

/// The arguments that a relaunch passes on: those of this process without
/// the first, which names the program.
pub open spec fn forwarded(argv: Seq<Seq<char>>) -> Seq<Seq<char>> {
    if argv.len() == 0 {
        argv
    } else {
        argv.skip(1)
    }
}

/// The relaunch of the program at `exe_path` for a process that was started
/// with `argv`: the arguments are passed on, and elevation is asked for in a
/// graphical prompt.
pub open spec fn relaunch_of(exe_path: Seq<char>, argv: Seq<Seq<char>>) -> RelaunchCommandView {
    RelaunchCommandView { program: exe_path, args: forwarded(argv), gui: true }
}

/// What follows the elevation check: an elevated process proceeds, one that
/// is not is launched again, and a failed check ends the process after the
/// user was told, with no relaunch.
pub open spec fn decide_after_check(check: Result<bool, ElevationErrorView>) -> StartupActionView {
    match check {
        Ok(true) => StartupActionView::Proceed,
        Ok(false) => StartupActionView::Relaunch,
        Err(error) => StartupActionView::NotifyAndExit(
            error_notification_of("Failed to call check_elevated"@, error.cause()),
            EXIT_CODE,
        ),
    }
}

/// What follows a relaunch: this process ends either way, after the user
/// was told if the relaunch failed.
pub open spec fn decide_after_relaunch(result: Result<(), ElevationErrorView>) -> StartupActionView {
    match result {
        Ok(_) => StartupActionView::Exit(EXIT_CODE),
        Err(error) => StartupActionView::NotifyAndExit(
            error_notification_of(
                "User rejected privilege request, installation cannot continue"@,
                error.cause(),
            ),
            EXIT_CODE,
        ),
    }
}

/// The arguments of this process without the first.
pub fn forwarded_arguments(argv: &Vec<String>) -> (args: Vec<String>)
    ensures
        args.deep_view() == forwarded(argv.deep_view()),
{
    let mut args: Vec<String> = Vec::new();
    if argv.len() == 0 {
        assert(args.deep_view() =~= forwarded(argv.deep_view()));
        return args;
    }
    let mut i: usize = 1;
    while i < argv.len()
        invariant
            1 <= i <= argv.len(),
            args.len() == i - 1,
            forall|k: int| 0 <= k < args.len() ==> args[k]@ == argv[k + 1]@,
        decreases argv.len() - i,
    {
        args.push(argv[i].clone());
        i += 1;
    }
    assert(args.deep_view() =~= forwarded(argv.deep_view()));
    args
}

/// The command that launches the program at `exe_path` again with
/// elevation. `argv` holds the arguments of this process, the program's name
/// first.
pub fn relaunch_command(exe_path: String, argv: &Vec<String>) -> (command: RelaunchCommand)
    ensures
        command@ == relaunch_of(exe_path@, argv.deep_view()),
{
    RelaunchCommand { program: exe_path, args: forwarded_arguments(argv), gui: true }
}

/// Decides what to do once the elevation check has returned.
pub fn after_elevation_check(check: Result<bool, ElevationError>) -> (action: StartupAction)
    ensures
        action@ == decide_after_check(check_view(check)),
{
    match check {
        Ok(true) => StartupAction::Proceed,
        Ok(false) => StartupAction::Relaunch,
        Err(error) => {
            let cause = error.cause();
            StartupAction::NotifyAndExit(
                error_notification("Failed to call check_elevated", cause.as_str()),
                EXIT_CODE,
            )
        },
    }
}

/// Decides what to do once the relaunch with elevation has returned.
pub fn after_relaunch(result: Result<(), ElevationError>) -> (action: StartupAction)
    ensures
        action@ == decide_after_relaunch(relaunch_view(result)),
{
    match result {
        Ok(_) => StartupAction::Exit(EXIT_CODE),
        Err(error) => {
            let cause = error.cause();
            StartupAction::NotifyAndExit(
                error_notification(
                    "User rejected privilege request, installation cannot continue",
                    cause.as_str(),
                ),
                EXIT_CODE,
            )
        },
    }
}

} // verus!
