//! The record that the registry keeps of one process, and its lifecycle.

use vstd::prelude::*;
use crate::error::Error;

verus! {

/// A point in time, in seconds and nanoseconds since the Unix epoch.
#[derive(Debug, Clone, Copy, PartialEq, Eq, Structural)]
pub struct Timestamp {
    pub secs: i64,
    pub nanos: u32,
}

/// Where a process stands in its lifecycle.
#[derive(Debug, Clone, Copy, PartialEq, Eq, Structural)]
pub enum ProcessState {
    /// Set up, not yet running.
    Created,
    /// Started; it runs, or has run to its end.
    Started,
    /// Torn down.
    Deleted,
}

/// The instruction to deliver a signal.
#[derive(Debug, Clone, Copy, PartialEq, Eq, Structural)]
pub struct Delivery {
    /// The process to signal.
    pub pid: isize,
    /// The signal's number.
    pub signal: u32,
    /// Whether every process of the container's process group is meant, and
    /// not `pid` alone.
    pub all: bool,
}

/// What a process record holds.
pub struct ProcessView {
    pub pid: isize,
    pub exit_status: isize,
    pub exited_at: Option<Timestamp>,
    pub state: ProcessState,
}

impl ProcessView {
    /// The record of a process that has just been created.
    pub open spec fn created(pid: isize) -> ProcessView {
        ProcessView { pid: pid, exit_status: 0, exited_at: None, state: ProcessState::Created }
    }

    /// The record once the process has been started.
    pub open spec fn started(self) -> ProcessView {
        ProcessView { state: ProcessState::Started, ..self }
    }

    /// The record once the process has been torn down, having ended with
    /// `exit_status` at `exited_at`.
    pub open spec fn deleted(
        self,
        exit_status: isize,
        exited_at: Option<Timestamp>,
    ) -> ProcessView {
        ProcessView {
            pid: self.pid,
            exit_status: exit_status,
            exited_at: exited_at,
            state: ProcessState::Deleted,
        }
    }
}

/// What the registry knows of one process: its id, where it stands in its
/// lifecycle, and how it ended. A record changes only along the lifecycle:
/// from created to started, and from any state to deleted.
#[derive(Debug, Clone, Copy, PartialEq, Eq)]
pub struct InitProcess {
    pid: isize,
    exit_status: isize,
    exited_at: Option<Timestamp>,
    state: ProcessState,
}

impl View for InitProcess {
    type V = ProcessView;

    closed spec fn view(&self) -> ProcessView {
        ProcessView {
            pid: self.pid,
            exit_status: self.exit_status,
            exited_at: self.exited_at,
            state: self.state,
        }
    }
}

impl InitProcess {
    /// The record of the process `pid`, which has been created.
    pub fn new(pid: isize) -> (r: Self)
        ensures
            r@ == ProcessView::created(pid),
    {
        InitProcess { pid, exit_status: 0, exited_at: None, state: ProcessState::Created }
    }

    /// The process id.
    pub fn pid(&self) -> (r: isize)
        ensures
            r == self@.pid,
    {
        self.pid
    }

    /// The status with which the process ended, as captured on deletion.
    pub fn exit_status(&self) -> (r: isize)
        ensures
            r == self@.exit_status,
    {
        self.exit_status
    }

    /// When the process ended, as captured on deletion.
    pub fn exited_at(&self) -> (r: Option<Timestamp>)
        ensures
            r == self@.exited_at,
    {
        self.exited_at
    }

    /// Where the process stands in its lifecycle.
    pub fn state(&self) -> (r: ProcessState)
        ensures
            r == self@.state,
    {
        self.state
    }

    /// Records that the process was started. Only a process that was created
    /// and neither started nor deleted since can be started; on any other the
    /// call fails and changes nothing.
    pub fn start(&mut self) -> (r: Result<(), Error>)
        ensures
            old(self)@.state == ProcessState::Created ==> r is Ok && final(self)@ == old(
                self,
            )@.started(),
            old(self)@.state != ProcessState::Created ==> (r matches Err(Error::InvalidState))
                && final(self)@ == old(self)@,
    {
        match self.state {
            ProcessState::Created => {
                self.state = ProcessState::Started;
                Ok(())
            },
            _ => Err(Error::InvalidState),
        }
    }

    /// The instruction to deliver `signal` to the process, which any process
    /// takes that has not been deleted.
    pub fn kill(&self, signal: u32, all: bool) -> (r: Result<Delivery, Error>)
        ensures
            self@.state != ProcessState::Deleted ==> r == Ok::<Delivery, Error>(
                Delivery { pid: self@.pid, signal: signal, all: all },
            ),
            self@.state == ProcessState::Deleted ==> r matches Err(Error::InvalidState),
    {
        match self.state {
            ProcessState::Deleted => Err(Error::InvalidState),
            _ => Ok(Delivery { pid: self.pid, signal, all }),
        }
    }

    /// Records that the process was torn down, whatever its state was, and
    /// with it the status and the time of its end.
    pub fn delete(&mut self, exit_status: isize, exited_at: Option<Timestamp>)
        ensures
            final(self)@ == old(self)@.deleted(exit_status, exited_at),
    {
        self.exit_status = exit_status;
        self.exited_at = exited_at;
        self.state = ProcessState::Deleted;
    }
}

} // verus!
