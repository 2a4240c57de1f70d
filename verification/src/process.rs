//! What a session needs of the platform that runs the child.

use vstd::prelude::*;
use crate::error::Error;

verus! {

/// A child process on a pseudo-terminal, as one platform provides it.
///
/// Nothing is promised of these calls: each may fail, and a session is made
/// only of what they returned.
pub trait Process: Sized {
    /// How the platform describes a program to run.
    type Command;

    /// The byte stream to and from the child's terminal.
    type Stream;

    /// Starts the program that the command line `cmd` names.
    fn spawn(cmd: &str) -> Result<Self, Error>;

    /// Starts the program that `command` describes.
    fn spawn_command(command: Self::Command) -> Result<Self, Error>;

    /// Opens a stream on the master side of the child's terminal.
    fn open_stream(&mut self) -> Result<Self::Stream, Error>;
}

/// What the system says of a child.
#[derive(Debug, Clone, Copy, PartialEq, Eq, Structural)]
pub enum WaitStatus {
    /// The child with this process id has exited with this code.
    Exited(i32, i32),
    /// The child with this process id was killed by the signal of this
    /// number; the flag tells whether it left a core dump.
    Signaled(i32, i32, bool),
    /// The child with this process id was stopped by the signal of this
    /// number.
    Stopped(i32, i32),
    /// The child with this process id was resumed.
    Continued(i32),
    /// The child is running.
    StillAlive,
}

impl WaitStatus {
    /// Whether the child is gone for good: it has exited or was killed.
    pub open spec fn terminated(self) -> bool {
        self is Exited || self is Signaled
    }

    /// Whether the child is gone for good: it has exited or was killed.
    pub fn is_terminated(&self) -> (gone: bool)
        ensures
            gone == self.terminated(),
    {
        match self {
            WaitStatus::Exited(_, _) => true,
            WaitStatus::Signaled(_, _, _) => true,
            _ => false,
        }
    }
}

/// The longest wait between two looks at a child that has been told to hang
/// up, in milliseconds.
pub const PROBE: u64 = 100;

/// What to do next to a child whose session is given up.
#[derive(Debug, Clone, Copy, PartialEq, Eq, Structural)]
pub enum Farewell {
    /// Tell the child that its terminal has hung up.
    Hangup,
    /// Look at the child again after at most `tick` milliseconds.
    Wait { tick: u64 },
    /// Kill the child.
    Kill,
    /// The child is gone.
    Done,
}

/// How a child is parted from: one that is gone needs nothing; one that
/// lives is told to hang up, then given until `grace` milliseconds have
/// passed, then killed.
pub open spec fn parting(status: WaitStatus, hung_up: bool, elapsed: u64, grace: u64) -> Farewell {
    if status.terminated() {
        Farewell::Done
    } else if !hung_up {
        Farewell::Hangup
    } else if elapsed >= grace {
        Farewell::Kill
    } else if grace - elapsed < PROBE {
        Farewell::Wait { tick: (grace - elapsed) as u64 }
    } else {
        Farewell::Wait { tick: PROBE }
    }
}

/// Says what to do next to a child in the state `status`, which has or has
/// not been told to hang up, `elapsed` milliseconds after it was, where it
/// is given `grace` milliseconds to go.
pub fn farewell(status: WaitStatus, hung_up: bool, elapsed: u64, grace: u64) -> (next: Farewell)
    ensures
        next == parting(status, hung_up, elapsed, grace),
{
    if status.is_terminated() {
        Farewell::Done
    } else if !hung_up {
        Farewell::Hangup
    } else if elapsed >= grace {
        Farewell::Kill
    } else if grace - elapsed < PROBE {
        Farewell::Wait { tick: grace - elapsed }
    } else {
        Farewell::Wait { tick: PROBE }
    }
}

/// A child that lives is never left alone: it is told to hang up first, and
/// killed once its time is up; and no wait reaches past that time.
pub proof fn lemma_parting_is_bounded(status: WaitStatus, hung_up: bool, elapsed: u64, grace: u64)
    ensures
        parting(status, hung_up, elapsed, grace) is Done <==> status.terminated(),
        parting(status, hung_up, elapsed, grace) is Kill ==> hung_up && elapsed >= grace,
        parting(status, hung_up, elapsed, grace) matches Farewell::Wait { tick } ==> 0 < tick
            <= PROBE && elapsed + tick <= grace,
{
}

} // verus!
