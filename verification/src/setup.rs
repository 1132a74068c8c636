//! The opening of a set of pipes, step by step.
//!
//! Opening a pipe and giving one of its ends an owner are the caller's to
//! do; which step comes next, and what is to be closed when one fails, is
//! decided here.

use vstd::prelude::*;
use crate::io::{
    lemma_contains_add, lemma_owned_by_open, owned_by, IOOption, IoView, RuncIO, RuncPipedIO,
};
use crate::pipe::{Pipe, PipeView, Stream};

verus! {

/// The place of a stream in the order in which the pipes are opened.
pub open spec fn rank(stream: Stream) -> int {
    match stream {
        Stream::Stdin => 0,
        Stream::Stdout => 1,
        Stream::Stderr => 2,
    }
}

/// How far the opening of a set of pipes has come.
#[derive(Debug, Clone, Copy, PartialEq, Eq, Structural)]
pub enum Phase {
    /// The pipe of this stream is to be opened next.
    Opening(Stream),
    /// The pipe of this stream is open; its child's end awaits its owner.
    Chowning(Stream),
    /// Every requested pipe is open and owned as asked.
    Ready,
    /// The opening failed; what was open has been handed out to be closed.
    Failed,
}

/// What the caller does next for a set of pipes that is being opened.
#[derive(Debug, Clone, Copy, PartialEq, Eq, Structural)]
pub enum IoStep {
    /// Open a pipe and report its descriptors with `pipe_opened`.
    OpenPipe(Stream),
    /// Make `uid` and `gid` the owner of `fd` and report it with `chowned`.
    Chown { fd: i32, uid: u32, gid: u32 },
    /// Nothing is left to do: take the set with `finish`.
    Finish,
    /// Nothing is left to do: the opening has failed.
    Failed,
}

/// The phase in which the first requested stream from `stream` on is opened,
/// or the last phase where none is requested.
pub open spec fn opening_from(opts: IOOption, stream: Stream) -> Phase {
    if rank(stream) <= 0 && opts.open_stdin {
        Phase::Opening(Stream::Stdin)
    } else if rank(stream) <= 1 && opts.open_stdout {
        Phase::Opening(Stream::Stdout)
    } else if opts.open_stderr {
        Phase::Opening(Stream::Stderr)
    } else {
        Phase::Ready
    }
}

/// The phase that follows the work on `stream`.
pub open spec fn opening_after(opts: IOOption, stream: Stream) -> Phase {
    match stream {
        Stream::Stdin => opening_from(opts, Stream::Stdout),
        Stream::Stdout => opening_from(opts, Stream::Stderr),
        Stream::Stderr => Phase::Ready,
    }
}

/// What a set of pipes that is being opened holds.
pub struct SetupView {
    /// The user who is to own the child's ends.
    pub uid: u32,
    /// The group that is to own the child's ends.
    pub gid: u32,
    /// Which streams get a pipe.
    pub opts: IOOption,
    /// The pipes that are open.
    pub io: IoView,
    /// How far the opening has come.
    pub phase: Phase,
}

impl SetupView {
    /// The state in which nothing is open yet.
    pub open spec fn begin(uid: u32, gid: u32, opts: IOOption) -> SetupView {
        SetupView {
            uid: uid,
            gid: gid,
            opts: opts,
            io: IoView::empty(),
            phase: opening_from(opts, Stream::Stdin),
        }
    }

    /// Whether the pipe of `stream` is open in this phase: the requested
    /// streams get their pipes in order, and lose them when the opening
    /// fails.
    pub open spec fn has_opened(self, stream: Stream) -> bool {
        match self.phase {
            Phase::Opening(current) => self.opts.requests(stream) && rank(stream) < rank(current),
            Phase::Chowning(current) => self.opts.requests(stream) && rank(stream) <= rank(
                current,
            ),
            Phase::Ready => self.opts.requests(stream),
            Phase::Failed => false,
        }
    }

    /// Whether the state is one that the opening can reach: work is done on
    /// requested streams only, the pipes that are open are those of the
    /// phase, their descriptors are valid and all different, and no end has
    /// been handed out.
    pub open spec fn well_formed(self) -> bool {
        &&& match self.phase {
            Phase::Opening(current) => self.opts.requests(current),
            Phase::Chowning(current) => self.opts.requests(current),
            _ => true,
        }
        &&& self.io.stdin is Some <==> self.has_opened(Stream::Stdin)
        &&& self.io.stdout is Some <==> self.has_opened(Stream::Stdout)
        &&& self.io.stderr is Some <==> self.has_opened(Stream::Stderr)
        &&& self.io.well_formed()
        &&& self.io.all_open()
    }

    /// What the caller does next.
    pub open spec fn step(self) -> IoStep {
        match self.phase {
            Phase::Opening(current) => IoStep::OpenPipe(current),
            Phase::Chowning(current) => IoStep::Chown {
                fd: self.io.pipe(current)->Some_0.far_fd(current),
                uid: self.uid,
                gid: self.gid,
            },
            Phase::Ready => IoStep::Finish,
            Phase::Failed => IoStep::Failed,
        }
    }

    /// Whether the pair is taken as the pipe that was asked for: a pipe is
    /// awaited, and the pair is two valid descriptors that differ from each
    /// other and from every descriptor of the pipes that are open.
    pub open spec fn accepts(self, read_fd: i32, write_fd: i32) -> bool {
        &&& self.phase is Opening
        &&& PipeView::fresh(read_fd, write_fd).valid()
        &&& !self.io.holds(read_fd)
        &&& !self.io.holds(write_fd)
    }

    /// The state once the pair was taken as the pipe that was asked for.
    pub open spec fn after_open(self, read_fd: i32, write_fd: i32) -> SetupView {
        SetupView {
            io: self.io.with_pipe(self.phase->Opening_0, PipeView::fresh(read_fd, write_fd)),
            phase: Phase::Chowning(self.phase->Opening_0),
            ..self
        }
    }

    /// The state once the child's end of the current pipe has its owner.
    pub open spec fn after_chown(self) -> SetupView {
        SetupView { phase: opening_after(self.opts, self.phase->Chowning_0), ..self }
    }

    /// The state once the opening was given up.
    pub open spec fn aborted(self) -> SetupView {
        SetupView { io: IoView::empty(), phase: Phase::Failed, ..self }
    }

    /// The number of reports after which the opening is complete at the
    /// latest.
    pub open spec fn steps_left(self) -> nat {
        match self.phase {
            Phase::Opening(current) => (2 * (3 - rank(current))) as nat,
            Phase::Chowning(current) => (2 * (3 - rank(current)) - 1) as nat,
            Phase::Ready => 0,
            Phase::Failed => 0,
        }
    }
}

/// A set of pipes that is being opened. The caller asks for the next step,
/// carries it out, and reports back, until the set is ready or the opening
/// has failed; in between it owns no descriptor of the set.
#[derive(Debug)]
pub struct IoSetup {
    uid: u32,
    gid: u32,
    opts: IOOption,
    io: RuncPipedIO,
    phase: Phase,
}

impl View for IoSetup {
    type V = SetupView;

    closed spec fn view(&self) -> SetupView {
        SetupView { uid: self.uid, gid: self.gid, opts: self.opts, io: self.io@, phase: self.phase }
    }
}

impl RuncPipedIO {
    /// Begins to open the pipes that `opts` asks for, whose child's ends
    /// `uid` and `gid` are to own. The two ids are taken by their lower 32
    /// bits, so that `-1` stands for the id that leaves an owner as it is.
    pub fn new(uid: isize, gid: isize, opts: IOOption) -> (r: IoSetup)
        ensures
            r@ == SetupView::begin(uid as u32, gid as u32, opts),
            r@.well_formed(),
    {
        let uid = #[verifier::truncate]
        (uid as u32);
        let gid = #[verifier::truncate]
        (gid as u32);
        let phase = if opts.open_stdin {
            Phase::Opening(Stream::Stdin)
        } else if opts.open_stdout {
            Phase::Opening(Stream::Stdout)
        } else if opts.open_stderr {
            Phase::Opening(Stream::Stderr)
        } else {
            Phase::Ready
        };
        IoSetup { uid, gid, opts, io: RuncPipedIO::empty(), phase }
    }
}

impl IoSetup {
    /// The phase that follows the work on `stream`.
    fn phase_after(&self, stream: Stream) -> (r: Phase)
        ensures
            r == opening_after(self@.opts, stream),
    {
        match stream {
            Stream::Stdin => if self.opts.open_stdout {
                Phase::Opening(Stream::Stdout)
            } else if self.opts.open_stderr {
                Phase::Opening(Stream::Stderr)
            } else {
                Phase::Ready
            },
            Stream::Stdout => if self.opts.open_stderr {
                Phase::Opening(Stream::Stderr)
            } else {
                Phase::Ready
            },
            Stream::Stderr => Phase::Ready,
        }
    }

    /// How far the opening has come.
    pub fn phase(&self) -> (r: Phase)
        ensures
            r == self@.phase,
    {
        self.phase
    }

    /// What the caller does next.
    pub fn step(&self) -> (r: IoStep)
        requires
            self@.well_formed(),
        ensures
            r == self@.step(),
    {
        match self.phase {
            Phase::Opening(current) => IoStep::OpenPipe(current),
            Phase::Chowning(current) => match self.io.far_fd(current) {
                Some(fd) => IoStep::Chown { fd, uid: self.uid, gid: self.gid },
                None => IoStep::Failed,
            },
            Phase::Ready => IoStep::Finish,
            Phase::Failed => IoStep::Failed,
        }
    }

    /// Reports the pipe that was opened. The pair is taken, and the set owns
    /// both descriptors from now on, if a pipe was asked for and the pair is
    /// two valid descriptors that the set does not hold yet. A pair that is
    /// not taken stays with the caller, and nothing changes.
    pub fn pipe_opened(&mut self, read_fd: i32, write_fd: i32) -> (r: bool)
        requires
            old(self)@.well_formed(),
        ensures
            r == old(self)@.accepts(read_fd, write_fd),
            final(self)@ == (if r {
                old(self)@.after_open(read_fd, write_fd)
            } else {
                old(self)@
            }),
            final(self)@.well_formed(),
            r ==> final(self)@.steps_left() < old(self)@.steps_left(),
    {
        match self.phase {
            Phase::Opening(current) => {
                if self.io.holds(read_fd) || self.io.holds(write_fd) {
                    return false;
                }
                match Pipe::new(read_fd, write_fd) {
                    Some(pipe) => {
                        self.io.put(current, pipe);
                        self.phase = Phase::Chowning(current);
                        true
                    },
                    None => false,
                }
            },
            _ => false,
        }
    }

    /// Reports that the child's end of the current pipe has its owner. This
    /// is taken, and the opening moves on, if that was the step to do;
    /// otherwise nothing changes.
    pub fn chowned(&mut self) -> (r: bool)
        requires
            old(self)@.well_formed(),
        ensures
            r == old(self)@.phase is Chowning,
            final(self)@ == (if r {
                old(self)@.after_chown()
            } else {
                old(self)@
            }),
            final(self)@.well_formed(),
            r ==> final(self)@.steps_left() < old(self)@.steps_left(),
    {
        match self.phase {
            Phase::Chowning(current) => {
                self.phase = self.phase_after(current);
                true
            },
            _ => false,
        }
    }

    /// Gives the opening up after a step has failed: every descriptor of the
    /// pipes that are open is handed out to be closed, and the set keeps
    /// none.
    pub fn abort(&mut self) -> (r: Vec<i32>)
        requires
            old(self)@.well_formed(),
        ensures
            r@ == old(self)@.io.owned(),
            final(self)@ == old(self)@.aborted(),
            final(self)@.well_formed(),
            forall|fd: i32| old(self)@.io.holds(fd) <==> r@.contains(fd),
    {
        let fds = self.io.close();
        self.io = RuncPipedIO::empty();
        self.phase = Phase::Failed;
        proof {
            lemma_all_open_owned(old(self)@.io);
        }
        fds
    }

    /// The set of pipes, once the opening is complete: it has a pipe for
    /// each requested stream and for no other, with both ends open.
    pub fn finish(self) -> (r: Option<RuncPipedIO>)
        requires
            self@.well_formed(),
        ensures
            match r {
                Some(io) => {
                    &&& self@.phase == Phase::Ready
                    &&& io@ == self@.io
                    &&& io@.well_formed()
                    &&& io@.all_open()
                    &&& io@.stdin is Some <==> self@.opts.open_stdin
                    &&& io@.stdout is Some <==> self@.opts.open_stdout
                    &&& io@.stderr is Some <==> self@.opts.open_stderr
                },
                None => self@.phase != Phase::Ready,
            },
    {
        match self.phase {
            Phase::Ready => Some(self.io),
            _ => None,
        }
    }
}

/// Where every end is open, the open ends are all the descriptors.
pub proof fn lemma_all_open_owned(io: IoView)
    requires
        io.all_open(),
    ensures
        forall|fd: i32| io.holds(fd) <==> io.owned().contains(fd),
{
    assert forall|fd: i32| io.holds(fd) <==> io.owned().contains(fd) by {
        let a = owned_by(io.stdin);
        let b = owned_by(io.stdout);
        let c = owned_by(io.stderr);
        lemma_contains_add(a + b, c, fd);
        lemma_contains_add(a, b, fd);
        lemma_owned_by_open(io.stdin, fd);
        lemma_owned_by_open(io.stdout, fd);
        lemma_owned_by_open(io.stderr, fd);
    }
}

/// Once every requested pipe is open, the accessor of a stream that was not
/// requested yields nothing, and that of a requested stream yields a valid
/// descriptor, which no other stream shares.
pub proof fn lemma_ready_near_fds(setup: SetupView, a: Stream, b: Stream)
    requires
        setup.well_formed(),
        setup.phase == Phase::Ready,
    ensures
        setup.io.near_fd(a) is Some <==> setup.opts.requests(a),
        setup.io.near_fd(a) matches Some(fd) ==> fd >= 0,
        a != b && setup.io.near_fd(a) is Some ==> setup.io.near_fd(a) != setup.io.near_fd(b),
{
}

} // verus!
