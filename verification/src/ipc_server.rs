//! The thread that listens on the socket of a session: whom it asks for what.

use vstd::prelude::*;

use crate::channels::{Outlet, SendError, Spared, Trailed};
use crate::errors::{ContextType, ErrorContext};
use crate::instructions::{PtyInstruction, ScreenInstruction};
use crate::ipc::{ApiCommand, DecodeError};

verus! {

/// An instruction, and which thread it is for.
#[derive(Debug, PartialEq, Eq)]
pub enum Request<V, L> {
    Pty(PtyInstruction),
    Screen(ScreenInstruction<V, L>),
}

/// A request that could not be passed on, since the thread it is for is gone.
#[derive(Debug)]
pub enum Unserved<V, L> {
    Pty(SendError<(PtyInstruction, ErrorContext)>),
    Screen(SendError<(ScreenInstruction<V, L>, ErrorContext)>),
}

/// Why a message that came in over the socket led to nothing.
#[derive(Debug)]
pub enum ServeError<V, L> {
    Undecodable(DecodeError),
    Unserved(Unserved<V, L>),
}

/// What `command` asks, and of which thread.
pub open spec fn request_for<V, L>(command: ApiCommand) -> Request<V, L> {
    match command {
        ApiCommand::OpenFile(path) => Request::Pty(PtyInstruction::SpawnTerminal(Some(path))),
        ApiCommand::SplitHorizontally => Request::Pty(
            PtyInstruction::SpawnTerminalHorizontally(None),
        ),
        ApiCommand::SplitVertically => Request::Pty(PtyInstruction::SpawnTerminalVertically(None)),
        ApiCommand::MoveFocus => Request::Screen(ScreenInstruction::MoveFocus),
    }
}

/// `outcome` is what became of `request`: the one thread that it is for was asked,
/// and nothing else went wrong.
pub open spec fn passed_on<V, L, P: Outlet<PtyInstruction>, S: Outlet<ScreenInstruction<V, L>>>(
    request: Request<V, L>,
    pty: P,
    screen: S,
    outcome: Result<(), Unserved<V, L>>,
) -> bool {
    match (request, outcome) {
        (Request::Pty(instruction), Ok(done)) => pty.put(instruction, Ok(done)),
        (Request::Pty(instruction), Err(Unserved::Pty(refused))) => pty.put(
            instruction,
            Err(refused),
        ),
        (Request::Screen(instruction), Ok(done)) => screen.put(instruction, Ok(done)),
        (Request::Screen(instruction), Err(Unserved::Screen(refused))) => screen.put(
            instruction,
            Err(refused),
        ),
        _ => false,
    }
}

/// The outlet of the thread that was not asked.
pub enum Other<P, S> {
    Pty(Spared<P>),
    Screen(Spared<S>),
}

/// What reaches both threads, and is used up by one request.
pub trait Switchboard<V, L>: Sized {
    /// What shows that the thread that a request is not for was left alone.
    type LeftAlone;

    /// `outcome` is what became of `request`.
    spec fn asked(self, request: Request<V, L>, outcome: Result<(), Unserved<V, L>>) -> bool;

    /// `rest` shows that the thread that `request` is not for was left alone.
    spec fn left_alone(self, request: Request<V, L>, rest: Self::LeftAlone) -> bool;

    /// Asks the thread that `request` is for, and no other.
    fn ask(self, request: Request<V, L>) -> (answer: (
        Result<(), Unserved<V, L>>,
        Self::LeftAlone,
    ))
        ensures
            self.asked(request, answer.0),
            self.left_alone(request, answer.1),
    ;
}

impl<V, L, P: Outlet<PtyInstruction>, S: Outlet<ScreenInstruction<V, L>>> Switchboard<V, L> for (
    P,
    S,
) {
    type LeftAlone = Other<P, S>;

    open spec fn asked(
        self,
        request: Request<V, L>,
        outcome: Result<(), Unserved<V, L>>,
    ) -> bool {
        passed_on(request, self.0, self.1, outcome)
    }

    open spec fn left_alone(self, request: Request<V, L>, rest: Other<P, S>) -> bool {
        match request {
            Request::Pty(_) => rest matches Other::Screen(spared) && spared.outlet() == self.1,
            Request::Screen(_) => rest matches Other::Pty(spared) && spared.outlet() == self.0,
        }
    }

    fn ask(self, request: Request<V, L>) -> (answer: (Result<(), Unserved<V, L>>, Other<P, S>)) {
        let (pty, screen) = self;
        match request {
            Request::Pty(instruction) => {
                let outcome = match pty.deliver(instruction) {
                    Ok(done) => Ok(done),
                    Err(refused) => Err(Unserved::Pty(refused)),
                };
                (outcome, Other::Screen(Spared::new(screen)))
            },
            Request::Screen(instruction) => {
                let outcome = match screen.deliver(instruction) {
                    Ok(done) => Ok(done),
                    Err(refused) => Err(Unserved::Screen(refused)),
                };
                (outcome, Other::Pty(Spared::new(pty)))
            },
        }
    }
}

/// Notes on the trail `err_ctx` that a command came in over the socket, and lets
/// what this thread asks of the others carry that trail.
pub fn begin<P: Trailed, S: Trailed>(
    send_pty_instructions: &mut P,
    send_screen_instructions: &mut S,
    err_ctx: ErrorContext,
)
    ensures
        final(send_pty_instructions).trail()@ == crate::errors::extended(
            err_ctx@,
            ContextType::IPCServer,
        ),
        final(send_pty_instructions).target() == old(send_pty_instructions).target(),
        final(send_screen_instructions).trail() == final(send_pty_instructions).trail(),
        final(send_screen_instructions).target() == old(send_screen_instructions).target(),
{
    let mut err_ctx = err_ctx;
    err_ctx.add_call(ContextType::IPCServer);
    send_pty_instructions.retrail(err_ctx);
    send_screen_instructions.retrail(err_ctx);
}

/// What `command` asks, and of which thread.
pub fn request<V, L>(command: ApiCommand) -> (request: Request<V, L>)
    ensures
        request == request_for::<V, L>(command),
{
    match command {
        ApiCommand::OpenFile(file_name) => {
            Request::Pty(PtyInstruction::SpawnTerminal(Some(file_name)))
        },
        ApiCommand::SplitHorizontally => {
            Request::Pty(PtyInstruction::SpawnTerminalHorizontally(None))
        },
        ApiCommand::SplitVertically => Request::Pty(PtyInstruction::SpawnTerminalVertically(None)),
        ApiCommand::MoveFocus => Request::Screen(ScreenInstruction::MoveFocus),
    }
}

/// Asks the thread that `command` is for: one message goes to it, and none to the
/// other.
pub fn serve<V, L, P, S>(
    send_pty_instructions: P,
    send_screen_instructions: S,
    command: ApiCommand,
) -> (outcome: Result<(), Unserved<V, L>>) where (P, S): Switchboard<V, L>
    ensures
        (send_pty_instructions, send_screen_instructions).asked(
            request_for::<V, L>(command),
            outcome,
        ),
{
    (send_pty_instructions, send_screen_instructions).ask(request(command)).0
}

/// Asks the thread that the command in `buffer` is for: one message goes to it, and
/// none to the other. A buffer that holds no command is refused, and nobody is asked
/// anything.
pub fn serve_message<V, L, P, S>(
    send_pty_instructions: P,
    send_screen_instructions: S,
    buffer: &[u8],
) -> (outcome: Result<(), ServeError<V, L>>) where (P, S): Switchboard<V, L>
    ensures
        match crate::ipc::command_in(buffer@) {
            Err(reason) => outcome == Err::<(), ServeError<V, L>>(ServeError::Undecodable(reason)),
            Ok(view) => exists|command: ApiCommand, served: Result<(), Unserved<V, L>>|
                {
                    &&& command@ == view
                    &&& #[trigger] (send_pty_instructions, send_screen_instructions).asked(
                        request_for::<V, L>(command),
                        served,
                    )
                    &&& outcome == match served {
                        Ok(done) => Ok(done),
                        Err(unserved) => Err(ServeError::Unserved(unserved)),
                    }
                },
        },
{
    match crate::ipc::decode(buffer) {
        Err(reason) => Err(ServeError::Undecodable(reason)),
        Ok(command) => {
            match serve(send_pty_instructions, send_screen_instructions, command) {
                Ok(done) => Ok(done),
                Err(unserved) => Err(ServeError::Unserved(unserved)),
            }
        },
    }
}

} // verus!
