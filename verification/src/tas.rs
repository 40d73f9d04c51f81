//! The TAS controller's decisions: the commands it takes, what it answers, and what it does
//! on each frame of the game while commands are waiting.

use vstd::prelude::*;

verus! {

/// What the controller answers to a command.
#[derive(Debug, Clone, PartialEq, Eq)]
pub enum Response {
    Success,
    Error(String),
    Timeout,
}

/// A command sent to the controller.
#[derive(Debug, Clone, Copy, PartialEq, Eq, Structural)]
pub enum Command {
    Pause,
    Resume,
}

impl Command {
    /// The command's name.
    pub fn describe(&self) -> (r: String)
        ensures
            r@ == match self {
                Command::Pause => "pause"@,
                Command::Resume => "resume"@,
            },
    {
        match self {
            Command::Pause => String::from_str("pause"),
            Command::Resume => String::from_str("resume"),
        }
    }
}

/// Whether the game is held on the current frame, and whether the controller is still
/// running (it stops once shut down, when its hooks are removed).
#[derive(Debug, Clone, Copy, PartialEq, Eq, Structural)]
pub struct TasController {
    is_paused: bool,
    is_running: bool,
}

impl TasController {
    /// A running controller that lets the game run.
    pub fn new() -> (r: Self)
        ensures
            !r.is_paused(),
            r.is_running(),
    {
        Self { is_paused: false, is_running: true }
    }

    pub closed spec fn is_paused_spec(&self) -> bool {
        self.is_paused
    }

    pub closed spec fn is_running_spec(&self) -> bool {
        self.is_running
    }

    #[verifier::when_used_as_spec(is_paused_spec)]
    pub fn is_paused(&self) -> (r: bool)
        ensures
            r == self.is_paused_spec(),
    {
        self.is_paused
    }

    #[verifier::when_used_as_spec(is_running_spec)]
    pub fn is_running(&self) -> (r: bool)
        ensures
            r == self.is_running_spec(),
    {
        self.is_running
    }

    pub fn pause(&mut self)
        ensures
            final(self).is_paused(),
            final(self).is_running() == old(self).is_running(),
    {
        self.is_paused = true;
    }

    pub fn resume(&mut self)
        ensures
            !final(self).is_paused(),
            final(self).is_running() == old(self).is_running(),
    {
        self.is_paused = false;
    }

    /// Stops the controller: its hooks are removed and it holds the game no longer.
    pub fn shutdown(&mut self)
        ensures
            !final(self).is_running(),
            final(self).is_paused() == old(self).is_paused(),
    {
        self.is_running = false;
    }
}

/// Carries out a command and gives the answer to send back.
pub fn handle_command(controller: &mut TasController, command: &Command) -> (r: Response)
    ensures
        r == Response::Success,
        final(controller).is_paused() == (*command == Command::Pause),
        final(controller).is_running() == old(controller).is_running(),
{
    match command {
        Command::Pause => {
            controller.pause();
            Response::Success
        },
        Command::Resume => {
            controller.resume();
            Response::Success
        },
    }
}

/// What the frame hook found when it looked for a command.
#[derive(Debug, Clone, Copy, PartialEq, Eq, Structural)]
pub enum Poll {
    /// A command arrived.
    Received(Command),
    /// No command is waiting.
    Empty,
    /// The command server is gone.
    Disconnected,
}

/// What the frame hook does next.
#[derive(Debug, Clone, PartialEq, Eq)]
pub enum FrameStep {
    /// Send this answer to the command, then look for another command.
    Respond(Response),
    /// Look for another command: the game stays held.
    Wait,
    /// Let the game run this frame.
    Continue,
}

/// One turn of the frame hook: a received command is carried out and answered; with no
/// command waiting the game runs unless it is paused; a lost server shuts the controller
/// down and lets the game run.
pub fn frame_step(controller: &mut TasController, poll: Poll) -> (r: FrameStep)
    ensures
        match poll {
            Poll::Received(c) => r == FrameStep::Respond(Response::Success)
                && final(controller).is_paused() == (c == Command::Pause)
                && final(controller).is_running() == old(controller).is_running(),
            Poll::Empty => *final(controller) == *old(controller)
                && r == if old(controller).is_paused() { FrameStep::Wait } else { FrameStep::Continue },
            Poll::Disconnected => r == FrameStep::Continue
                && !final(controller).is_running()
                && final(controller).is_paused() == old(controller).is_paused(),
        },
{
    match poll {
        Poll::Received(command) => FrameStep::Respond(handle_command(controller, &command)),
        Poll::Empty => {
            if controller.is_paused() {
                FrameStep::Wait
            } else {
                FrameStep::Continue
            }
        },
        Poll::Disconnected => {
            controller.shutdown();
            FrameStep::Continue
        },
    }
}

} // verus!
