//! One pipe of the operating system, and who owns each of its ends.
//!
//! A pipe end is open, closed or transferred. Only an open end is ever handed
//! out to be closed or to be attached to a child, and handing it out ends its
//! being open: no descriptor is closed twice, and none is closed by the parent
//! once the child's side has it.

use vstd::prelude::*;

verus! {

/// One of the three standard streams.
#[derive(Debug, Clone, Copy, PartialEq, Eq, Structural)]
pub enum Stream {
    Stdin,
    Stdout,
    Stderr,
}

/// What has become of one end of a pipe.
#[derive(Debug, Clone, Copy, PartialEq, Eq, Structural)]
pub enum EndState {
    /// The descriptor is open and the parent's to close.
    Open,
    /// The descriptor was handed out to be closed.
    Closed,
    /// The descriptor was handed out to be attached to a child, whose side
    /// closes it.
    Transferred,
}

/// What a pipe holds.
pub struct PipeView {
    pub read_fd: i32,
    pub write_fd: i32,
    pub read_end: EndState,
    pub write_end: EndState,
}

impl PipeView {
    /// A pipe as the operating system hands it out: both ends open.
    pub open spec fn fresh(read_fd: i32, write_fd: i32) -> PipeView {
        PipeView {
            read_fd: read_fd,
            write_fd: write_fd,
            read_end: EndState::Open,
            write_end: EndState::Open,
        }
    }

    /// Whether the pipe's descriptors are two different valid descriptors.
    pub open spec fn valid(self) -> bool {
        self.read_fd >= 0 && self.write_fd >= 0 && self.read_fd != self.write_fd
    }

    /// The pipe's descriptors, read end first.
    pub open spec fn fds(self) -> Seq<i32> {
        seq![self.read_fd, self.write_fd]
    }

    /// The descriptors of the ends that are open, read end first.
    pub open spec fn owned(self) -> Seq<i32> {
        (if self.read_end == EndState::Open {
            seq![self.read_fd]
        } else {
            seq![]
        }) + (if self.write_end == EndState::Open {
            seq![self.write_fd]
        } else {
            seq![]
        })
    }

    /// What `state` becomes when an open end is handed out as `target`.
    pub open spec fn handed_out(state: EndState, target: EndState) -> EndState {
        if state == EndState::Open {
            target
        } else {
            state
        }
    }

    /// The pipe once its open ends were handed out to be closed.
    pub open spec fn closed(self) -> PipeView {
        PipeView {
            read_end: Self::handed_out(self.read_end, EndState::Closed),
            write_end: Self::handed_out(self.write_end, EndState::Closed),
            ..self
        }
    }

    /// The pipe once its write end, if open, was handed out to be closed.
    pub open spec fn write_closed(self) -> PipeView {
        PipeView { write_end: Self::handed_out(self.write_end, EndState::Closed), ..self }
    }

    /// The pipe once its read end, if open, was handed out to be closed.
    pub open spec fn read_closed(self) -> PipeView {
        PipeView { read_end: Self::handed_out(self.read_end, EndState::Closed), ..self }
    }

    /// The descriptor that the parent uses when the pipe serves `stream`: it
    /// writes to a child's input and reads a child's output.
    pub open spec fn near_fd(self, stream: Stream) -> i32 {
        match stream {
            Stream::Stdin => self.write_fd,
            _ => self.read_fd,
        }
    }

    /// The descriptor that the child uses when the pipe serves `stream`.
    pub open spec fn far_fd(self, stream: Stream) -> i32 {
        match stream {
            Stream::Stdin => self.read_fd,
            _ => self.write_fd,
        }
    }

    /// The state of the child's end when the pipe serves `stream`.
    pub open spec fn far_end(self, stream: Stream) -> EndState {
        match stream {
            Stream::Stdin => self.read_end,
            _ => self.write_end,
        }
    }

    /// The pipe once the child's end, if open, was handed out to be attached.
    pub open spec fn wired(self, stream: Stream) -> PipeView {
        match stream {
            Stream::Stdin => PipeView {
                read_end: Self::handed_out(self.read_end, EndState::Transferred),
                ..self
            },
            _ => PipeView {
                write_end: Self::handed_out(self.write_end, EndState::Transferred),
                ..self
            },
        }
    }
}

/// One pipe of the operating system, with the state of its two ends.
///
/// A pipe is neither copied nor cloned: each end has one owner.
#[derive(Debug)]
pub struct Pipe {
    read_fd: i32,
    write_fd: i32,
    read_end: EndState,
    write_end: EndState,
}

impl View for Pipe {
    type V = PipeView;

    closed spec fn view(&self) -> PipeView {
        PipeView {
            read_fd: self.read_fd,
            write_fd: self.write_fd,
            read_end: self.read_end,
            write_end: self.write_end,
        }
    }
}

impl Pipe {
    /// Adopts the descriptor pair of a pipe that was just opened. A pair that
    /// is not two different valid descriptors is not adopted.
    pub fn new(read_fd: i32, write_fd: i32) -> (r: Option<Pipe>)
        ensures
            match r {
                Some(pipe) => pipe@ == PipeView::fresh(read_fd, write_fd) && pipe@.valid(),
                None => !PipeView::fresh(read_fd, write_fd).valid(),
            },
    {
        if read_fd >= 0 && write_fd >= 0 && read_fd != write_fd {
            Some(Pipe { read_fd, write_fd, read_end: EndState::Open, write_end: EndState::Open })
        } else {
            None
        }
    }

    /// The descriptor of the read end.
    pub fn read_fd(&self) -> (r: i32)
        ensures
            r == self@.read_fd,
    {
        self.read_fd
    }

    /// The descriptor of the write end.
    pub fn write_fd(&self) -> (r: i32)
        ensures
            r == self@.write_fd,
    {
        self.write_fd
    }

    /// Hands out the read end to be closed, if it is open.
    pub fn close_read(&mut self) -> (r: Option<i32>)
        ensures
            final(self)@ == old(self)@.read_closed(),
            r == (if old(self)@.read_end == EndState::Open {
                Some(old(self)@.read_fd)
            } else {
                None
            }),
    {
        match self.read_end {
            EndState::Open => {
                self.read_end = EndState::Closed;
                Some(self.read_fd)
            },
            _ => None,
        }
    }

    /// Hands out the write end to be closed, if it is open.
    pub fn close_write(&mut self) -> (r: Option<i32>)
        ensures
            final(self)@ == old(self)@.write_closed(),
            r == (if old(self)@.write_end == EndState::Open {
                Some(old(self)@.write_fd)
            } else {
                None
            }),
    {
        match self.write_end {
            EndState::Open => {
                self.write_end = EndState::Closed;
                Some(self.write_fd)
            },
            _ => None,
        }
    }

    /// Hands out every open end to be closed, the read end first.
    pub fn close(&mut self) -> (r: Vec<i32>)
        ensures
            final(self)@ == old(self)@.closed(),
            r@ == old(self)@.owned(),
    {
        let mut fds: Vec<i32> = Vec::new();
        if let Some(fd) = self.close_read() {
            fds.push(fd);
        }
        if let Some(fd) = self.close_write() {
            fds.push(fd);
        }
        fds
    }

    /// Hands out the child's end to be attached to a child's `stream`, if it
    /// is open.
    pub fn wire(&mut self, stream: Stream) -> (r: Option<i32>)
        ensures
            final(self)@ == old(self)@.wired(stream),
            r == (if old(self)@.far_end(stream) == EndState::Open {
                Some(old(self)@.far_fd(stream))
            } else {
                None
            }),
    {
        match stream {
            Stream::Stdin => match self.read_end {
                EndState::Open => {
                    self.read_end = EndState::Transferred;
                    Some(self.read_fd)
                },
                _ => None,
            },
            _ => match self.write_end {
                EndState::Open => {
                    self.write_end = EndState::Transferred;
                    Some(self.write_fd)
                },
                _ => None,
            },
        }
    }
}

} // verus!
