//! How a session ends.

use vstd::prelude::*;
use vstd::string::*;

use crate::channels::{Outlet, SendError, Trailed};
use crate::errors::{AppContext, ContextType, ErrorContext};
use crate::instructions::{AppInstruction, PtyInstruction, ScreenInstruction};

verus! {

/// One thing to do, in turn, when a session ends.
#[derive(Debug, PartialEq, Eq)]
pub enum ClosingStep {
    /// Tell the screen to quit, with [`tell_screen_to_quit`]. Whether it was still
    /// there to be told does not matter.
    TellScreenToQuit,
    /// Tell the terminals to quit, with [`tell_terminals_to_quit`]. Whether they
    /// were still there to be told does not matter.
    TellTerminalsToQuit,
    /// Wait for the threads to end. A thread that panicked is an error where
    /// `insist` is set, and is passed over where it is not.
    JoinThreads { insist: bool },
    /// Give the terminal back its ordinary mode.
    UnsetRawMode,
    /// Write a text to the terminal.
    Write(String),
    /// Flush what was written.
    Flush,
    /// End the process with a failure.
    ExitWithFailure,
}

/// A [`ClosingStep`] with its text as a sequence of characters.
pub enum ClosingStepView {
    TellScreenToQuit,
    TellTerminalsToQuit,
    JoinThreads { insist: bool },
    UnsetRawMode,
    Write(Seq<char>),
    Flush,
    ExitWithFailure,
}

impl View for ClosingStep {
    type V = ClosingStepView;

    open spec fn view(&self) -> ClosingStepView {
        match self {
            ClosingStep::TellScreenToQuit => ClosingStepView::TellScreenToQuit,
            ClosingStep::TellTerminalsToQuit => ClosingStepView::TellTerminalsToQuit,
            ClosingStep::JoinThreads { insist } => ClosingStepView::JoinThreads { insist: *insist },
            ClosingStep::UnsetRawMode => ClosingStepView::UnsetRawMode,
            ClosingStep::Write(text) => ClosingStepView::Write(text@),
            ClosingStep::Flush => ClosingStepView::Flush,
            ClosingStep::ExitWithFailure => ClosingStepView::ExitWithFailure,
        }
    }
}

/// The control sequence that moves the cursor to the start of line `rows`.
pub open spec fn goto_start_of_line(rows: nat) -> Seq<char> {
    "\u{1b}["@ + crate::decimal::decimal(rows) + ";1H"@
}

/// What is left on a terminal of `rows` lines when a session ends: below the last
/// line, with the style reset and the cursor shown.
pub open spec fn goodbye(rows: nat) -> Seq<char> {
    goto_start_of_line(rows) + "\n\u{1b}[m\u{1b}[?25hBye from Mosaic!"@
}

/// What is left on a terminal of `rows` lines when a session fails.
pub open spec fn failure(rows: nat, backtrace: Seq<char>) -> Seq<char> {
    goto_start_of_line(rows) + "\n"@ + backtrace
}

/// What is done, in turn, when a session on a terminal of `rows` lines ends.
pub open spec fn closing(instruction: AppInstruction, rows: nat) -> Seq<ClosingStepView> {
    match instruction {
        AppInstruction::Exit => seq![
            ClosingStepView::TellScreenToQuit,
            ClosingStepView::TellTerminalsToQuit,
            ClosingStepView::JoinThreads { insist: true },
            ClosingStepView::UnsetRawMode,
            ClosingStepView::Write(goodbye(rows)),
            ClosingStepView::Flush,
        ],
        AppInstruction::Error(backtrace) => seq![
            ClosingStepView::TellScreenToQuit,
            ClosingStepView::TellTerminalsToQuit,
            ClosingStepView::UnsetRawMode,
            ClosingStepView::Write(failure(rows, backtrace@)),
            ClosingStepView::JoinThreads { insist: false },
            ClosingStepView::ExitWithFailure,
        ],
    }
}

fn goto_start_of_last_line(rows: usize) -> (text: String)
    ensures
        text@ == goto_start_of_line(rows as nat),
{
    let mut text = String::from_str("\u{1b}[");
    crate::decimal::append_decimal(&mut text, rows);
    text.append(";1H");
    text
}

/// What is left on the terminal when a session ends.
pub fn goodbye_message(rows: usize) -> (text: String)
    ensures
        text@ == goodbye(rows as nat),
{
    let mut text = goto_start_of_last_line(rows);
    text.append("\n\u{1b}[m\u{1b}[?25hBye from Mosaic!");
    text
}

/// What is left on the terminal when a session fails.
pub fn failure_message(rows: usize, backtrace: &str) -> (text: String)
    ensures
        text@ == failure(rows as nat, backtrace@),
{
    let mut text = goto_start_of_last_line(rows);
    text.append("\n");
    text.append(backtrace);
    text
}

/// Tells the screen to quit, once.
pub fn tell_screen_to_quit<V, L, S: Outlet<ScreenInstruction<V, L>>>(
    send_screen_instructions: S,
) -> (outcome: Result<(), SendError<(ScreenInstruction<V, L>, ErrorContext)>>)
    ensures
        send_screen_instructions.put(ScreenInstruction::Quit, outcome),
{
    send_screen_instructions.deliver(ScreenInstruction::Quit)
}

/// Tells the terminals to quit, once.
pub fn tell_terminals_to_quit<P: Outlet<PtyInstruction>>(send_pty_instructions: P) -> (outcome:
    Result<(), SendError<(PtyInstruction, ErrorContext)>>)
    ensures
        send_pty_instructions.put(PtyInstruction::Quit, outcome),
{
    send_pty_instructions.deliver(PtyInstruction::Quit)
}

/// Takes the instruction to end in: notes it on the trail that it came with, lets
/// what the other threads are told from now on carry that trail, and says what to
/// do, in turn. The first of it is to tell the screen to quit, and the second to
/// tell the terminals.
pub fn receive<S: Trailed, P: Trailed>(
    send_screen_instructions: &mut S,
    send_pty_instructions: &mut P,
    app_instruction: &AppInstruction,
    err_ctx: ErrorContext,
    rows: usize,
) -> (steps: Vec<ClosingStep>)
    ensures
        steps@.map_values(|step: ClosingStep| step@) == closing(*app_instruction, rows as nat),
        final(send_screen_instructions).trail()@ == crate::errors::extended(
            err_ctx@,
            ContextType::App(crate::errors::app_context(*app_instruction)),
        ),
        final(send_screen_instructions).target() == old(send_screen_instructions).target(),
        final(send_pty_instructions).trail() == final(send_screen_instructions).trail(),
        final(send_pty_instructions).target() == old(send_pty_instructions).target(),
{
    let mut err_ctx = err_ctx;
    err_ctx.add_call(ContextType::App(AppContext::from(app_instruction)));
    send_screen_instructions.retrail(err_ctx);
    send_pty_instructions.retrail(err_ctx);
    let steps = match app_instruction {
        AppInstruction::Exit => vec![
            ClosingStep::TellScreenToQuit,
            ClosingStep::TellTerminalsToQuit,
            ClosingStep::JoinThreads { insist: true },
            ClosingStep::UnsetRawMode,
            ClosingStep::Write(goodbye_message(rows)),
            ClosingStep::Flush,
        ],
        AppInstruction::Error(backtrace) => vec![
            ClosingStep::TellScreenToQuit,
            ClosingStep::TellTerminalsToQuit,
            ClosingStep::UnsetRawMode,
            ClosingStep::Write(failure_message(rows, backtrace.as_str())),
            ClosingStep::JoinThreads { insist: false },
            ClosingStep::ExitWithFailure,
        ],
    };
    assert(steps@.map_values(|step: ClosingStep| step@) =~= closing(*app_instruction, rows as nat));
    steps
}

} // verus!
