//! The pipes behind the standard streams of a spawned process.
//!
//! A set holds a pipe for each stream that was asked for. It hands out the
//! descriptors that the parent uses, those that go to the child, and those
//! that are to be closed, each of the latter two once.

use vstd::prelude::*;
use crate::pipe::{EndState, Pipe, PipeView, Stream};

verus! {

/// Which streams get a pipe.
#[derive(Debug, Clone, Copy, PartialEq, Eq, Structural)]
pub struct IOOption {
    pub open_stdin: bool,
    pub open_stdout: bool,
    pub open_stderr: bool,
}

impl IOOption {
    /// Whether `stream` gets a pipe.
    pub open spec fn requests(self, stream: Stream) -> bool {
        match stream {
            Stream::Stdin => self.open_stdin,
            Stream::Stdout => self.open_stdout,
            Stream::Stderr => self.open_stderr,
        }
    }
}

impl Default for IOOption {
    /// Every stream gets a pipe.
    fn default() -> (r: Self)
        ensures
            r == (IOOption { open_stdin: true, open_stdout: true, open_stderr: true }),
    {
        IOOption { open_stdin: true, open_stdout: true, open_stderr: true }
    }
}

/// The descriptors to attach to the standard streams of a child that is
/// about to be started. A stream without a descriptor is left as it is.
#[derive(Debug, Clone, Copy, PartialEq, Eq, Structural)]
pub struct Wiring {
    pub stdin: Option<i32>,
    pub stdout: Option<i32>,
    pub stderr: Option<i32>,
}

/// Whether the pipe, if there is one, has two different valid descriptors.
pub open spec fn valid_pipe(pipe: Option<PipeView>) -> bool {
    match pipe {
        Some(pipe) => pipe.valid(),
        None => true,
    }
}

/// Whether the two pipes, if both are there, share no descriptor.
pub open spec fn apart(a: Option<PipeView>, b: Option<PipeView>) -> bool {
    match (a, b) {
        (Some(a), Some(b)) => a.read_fd != b.read_fd && a.read_fd != b.write_fd && a.write_fd
            != b.read_fd && a.write_fd != b.write_fd,
        _ => true,
    }
}

/// Whether both ends of the pipe, if there is one, are open.
pub open spec fn both_open(pipe: Option<PipeView>) -> bool {
    match pipe {
        Some(pipe) => pipe.read_end == EndState::Open && pipe.write_end == EndState::Open,
        None => true,
    }
}

/// Whether `fd` is a descriptor of the pipe, if there is one.
pub open spec fn pipe_holds(pipe: Option<PipeView>, fd: i32) -> bool {
    match pipe {
        Some(pipe) => pipe.read_fd == fd || pipe.write_fd == fd,
        None => false,
    }
}

/// The descriptors of the pipe's open ends, if there is a pipe.
pub open spec fn owned_by(pipe: Option<PipeView>) -> Seq<i32> {
    match pipe {
        Some(pipe) => pipe.owned(),
        None => seq![],
    }
}

/// The pipe, if there is one, once its open ends were handed out to be
/// closed.
pub open spec fn closed_pipe(pipe: Option<PipeView>) -> Option<PipeView> {
    match pipe {
        Some(pipe) => Some(pipe.closed()),
        None => None,
    }
}

/// The descriptor of the child's end of the pipe that serves `stream`, if
/// there is such a pipe and that end is open.
pub open spec fn wirable(pipe: Option<PipeView>, stream: Stream) -> Option<i32> {
    match pipe {
        Some(pipe) => if pipe.far_end(stream) == EndState::Open {
            Some(pipe.far_fd(stream))
        } else {
            None
        },
        None => None,
    }
}

/// The pipe, if there is one, once the child's end was handed out to be
/// attached.
pub open spec fn wired_pipe(pipe: Option<PipeView>, stream: Stream) -> Option<PipeView> {
    match pipe {
        Some(pipe) => Some(pipe.wired(stream)),
        None => None,
    }
}

/// The descriptor of the pipe's write end, if there is a pipe and that end
/// is open.
pub open spec fn releasable(pipe: Option<PipeView>) -> Seq<i32> {
    match pipe {
        Some(pipe) => if pipe.write_end == EndState::Open {
            seq![pipe.write_fd]
        } else {
            seq![]
        },
        None => seq![],
    }
}

/// The pipe, if there is one, once its write end was handed out to be
/// closed.
pub open spec fn released_pipe(pipe: Option<PipeView>) -> Option<PipeView> {
    match pipe {
        Some(pipe) => Some(pipe.write_closed()),
        None => None,
    }
}

/// What a set of pipes holds: for each stream its pipe, if it has one.
pub struct IoView {
    pub stdin: Option<PipeView>,
    pub stdout: Option<PipeView>,
    pub stderr: Option<PipeView>,
}

impl IoView {
    /// The set without any pipe.
    pub open spec fn empty() -> IoView {
        IoView { stdin: None, stdout: None, stderr: None }
    }

    /// The pipe that serves `stream`.
    pub open spec fn pipe(self, stream: Stream) -> Option<PipeView> {
        match stream {
            Stream::Stdin => self.stdin,
            Stream::Stdout => self.stdout,
            Stream::Stderr => self.stderr,
        }
    }

    /// The set in which `pipe` serves `stream`.
    pub open spec fn with_pipe(self, stream: Stream, pipe: PipeView) -> IoView {
        match stream {
            Stream::Stdin => IoView { stdin: Some(pipe), ..self },
            Stream::Stdout => IoView { stdout: Some(pipe), ..self },
            Stream::Stderr => IoView { stderr: Some(pipe), ..self },
        }
    }

    /// Whether `fd` is a descriptor of one of the pipes.
    pub open spec fn holds(self, fd: i32) -> bool {
        pipe_holds(self.stdin, fd) || pipe_holds(self.stdout, fd) || pipe_holds(self.stderr, fd)
    }

    /// Whether the descriptors of the set are valid and all different.
    pub open spec fn well_formed(self) -> bool {
        &&& valid_pipe(self.stdin)
        &&& valid_pipe(self.stdout)
        &&& valid_pipe(self.stderr)
        &&& apart(self.stdin, self.stdout)
        &&& apart(self.stdin, self.stderr)
        &&& apart(self.stdout, self.stderr)
    }

    /// Whether every end of every pipe is open.
    pub open spec fn all_open(self) -> bool {
        both_open(self.stdin) && both_open(self.stdout) && both_open(self.stderr)
    }

    /// The descriptor through which the parent reaches `stream`: absent
    /// where the stream has no pipe.
    pub open spec fn near_fd(self, stream: Stream) -> Option<i32> {
        match self.pipe(stream) {
            Some(pipe) => Some(pipe.near_fd(stream)),
            None => None,
        }
    }

    /// The descriptors of all open ends: stdin's, stdout's, stderr's, the
    /// read end before the write end.
    pub open spec fn owned(self) -> Seq<i32> {
        owned_by(self.stdin) + owned_by(self.stdout) + owned_by(self.stderr)
    }

    /// The set once every open end was handed out to be closed.
    pub open spec fn closed(self) -> IoView {
        IoView {
            stdin: closed_pipe(self.stdin),
            stdout: closed_pipe(self.stdout),
            stderr: closed_pipe(self.stderr),
        }
    }

    /// The child's ends that are open, by stream.
    pub open spec fn wiring(self) -> Wiring {
        Wiring {
            stdin: wirable(self.stdin, Stream::Stdin),
            stdout: wirable(self.stdout, Stream::Stdout),
            stderr: wirable(self.stderr, Stream::Stderr),
        }
    }

    /// The set once the child's open ends were handed out to be attached.
    pub open spec fn wired(self) -> IoView {
        IoView {
            stdin: wired_pipe(self.stdin, Stream::Stdin),
            stdout: wired_pipe(self.stdout, Stream::Stdout),
            stderr: wired_pipe(self.stderr, Stream::Stderr),
        }
    }

    /// The write ends of the output pipes that are open: stdout's, then
    /// stderr's. Once the child runs they are the child's alone.
    pub open spec fn child_ends(self) -> Seq<i32> {
        releasable(self.stdout) + releasable(self.stderr)
    }

    /// The set once the open write ends of the output pipes were handed out
    /// to be closed.
    pub open spec fn released(self) -> IoView {
        IoView {
            stdin: self.stdin,
            stdout: released_pipe(self.stdout),
            stderr: released_pipe(self.stderr),
        }
    }
}

/// The pipes behind the standard streams of one process: for each stream
/// one pipe, or none.
#[derive(Debug)]
pub struct RuncPipedIO {
    stdin: Option<Pipe>,
    stdout: Option<Pipe>,
    stderr: Option<Pipe>,
}

/// What an optional pipe holds.
pub open spec fn pipe_view(pipe: Option<Pipe>) -> Option<PipeView> {
    match pipe {
        Some(pipe) => Some(pipe@),
        None => None,
    }
}

impl View for RuncPipedIO {
    type V = IoView;

    closed spec fn view(&self) -> IoView {
        IoView {
            stdin: pipe_view(self.stdin),
            stdout: pipe_view(self.stdout),
            stderr: pipe_view(self.stderr),
        }
    }
}

/// Hands out every open end of the pipe, if there is one, to be closed.
fn close_pipe(pipe: &mut Option<Pipe>, fds: &mut Vec<i32>)
    ensures
        pipe_view(*final(pipe)) == closed_pipe(pipe_view(*old(pipe))),
        final(fds)@ == old(fds)@ + owned_by(pipe_view(*old(pipe))),
{
    match pipe {
        Some(pipe) => {
            if let Some(fd) = pipe.close_read() {
                fds.push(fd);
            }
            if let Some(fd) = pipe.close_write() {
                fds.push(fd);
            }
        },
        None => {},
    }
}

/// Hands out the open write end of the pipe, if there is one, to be closed.
fn release_pipe(pipe: &mut Option<Pipe>, fds: &mut Vec<i32>)
    ensures
        pipe_view(*final(pipe)) == released_pipe(pipe_view(*old(pipe))),
        final(fds)@ == old(fds)@ + releasable(pipe_view(*old(pipe))),
{
    match pipe {
        Some(pipe) => {
            if let Some(fd) = pipe.close_write() {
                fds.push(fd);
            }
        },
        None => {},
    }
}

/// Hands out the open child's end of the pipe, if there is one, to be
/// attached to a child's `stream`.
fn wire_pipe(pipe: &mut Option<Pipe>, stream: Stream) -> (r: Option<i32>)
    ensures
        pipe_view(*final(pipe)) == wired_pipe(pipe_view(*old(pipe)), stream),
        r == wirable(pipe_view(*old(pipe)), stream),
{
    match pipe {
        Some(pipe) => pipe.wire(stream),
        None => None,
    }
}

/// The standard streams of a process that is run through the runtime
/// binary, however they are provided. An implementation stands for a set of
/// pipes and hands their descriptors out: those that the parent uses, those
/// to attach to the child, and those to close.
pub trait RuncIO {
    /// The pipes behind the streams.
    spec fn pipes(&self) -> IoView;

    /// The descriptor to which the parent writes the child's input; absent
    /// where standard input has no pipe.
    fn stdin(&self) -> (r: Option<i32>)
        ensures
            r == self.pipes().near_fd(Stream::Stdin),
    ;

    /// The descriptor from which the parent reads the child's output; absent
    /// where standard output has no pipe.
    fn stdout(&self) -> (r: Option<i32>)
        ensures
            r == self.pipes().near_fd(Stream::Stdout),
    ;

    /// The descriptor from which the parent reads the child's errors; absent
    /// where standard error has no pipe.
    fn stderr(&self) -> (r: Option<i32>)
        ensures
            r == self.pipes().near_fd(Stream::Stderr),
    ;

    /// Hands out every open end to be closed. The caller closes each
    /// descriptor of the result once. A second call hands out nothing.
    fn close(&mut self) -> (r: Vec<i32>)
        ensures
            r@ == old(self).pipes().owned(),
            final(self).pipes() == old(self).pipes().closed(),
    ;

    /// Hands out the child's open ends to be attached to the streams of a
    /// child that is about to be started. They belong to the child's side
    /// from now on: the parent neither uses nor closes them.
    fn set(&mut self) -> (r: Wiring)
        ensures
            r == old(self).pipes().wiring(),
            final(self).pipes() == old(self).pipes().wired(),
    ;

    /// Hands out, to be closed, the write ends of the output pipes that the
    /// parent still holds open once the child has been started. The parent
    /// only reads from these pipes, and would not see their end while it
    /// holds a write end itself.
    fn close_after_start(&mut self) -> (r: Vec<i32>)
        ensures
            r@ == old(self).pipes().child_ends(),
            final(self).pipes() == old(self).pipes().released(),
    ;
}

impl RuncIO for RuncPipedIO {
    open spec fn pipes(&self) -> IoView {
        self@
    }

    fn stdin(&self) -> (r: Option<i32>) {
        match &self.stdin {
            Some(pipe) => Some(pipe.write_fd()),
            None => None,
        }
    }

    fn stdout(&self) -> (r: Option<i32>) {
        match &self.stdout {
            Some(pipe) => Some(pipe.read_fd()),
            None => None,
        }
    }

    fn stderr(&self) -> (r: Option<i32>) {
        match &self.stderr {
            Some(pipe) => Some(pipe.read_fd()),
            None => None,
        }
    }

    fn close(&mut self) -> (r: Vec<i32>) {
        let mut fds: Vec<i32> = Vec::new();
        close_pipe(&mut self.stdin, &mut fds);
        close_pipe(&mut self.stdout, &mut fds);
        close_pipe(&mut self.stderr, &mut fds);
        fds
    }

    fn set(&mut self) -> (r: Wiring) {
        let stdin = wire_pipe(&mut self.stdin, Stream::Stdin);
        let stdout = wire_pipe(&mut self.stdout, Stream::Stdout);
        let stderr = wire_pipe(&mut self.stderr, Stream::Stderr);
        Wiring { stdin, stdout, stderr }
    }

    fn close_after_start(&mut self) -> (r: Vec<i32>) {
        let mut fds: Vec<i32> = Vec::new();
        release_pipe(&mut self.stdout, &mut fds);
        release_pipe(&mut self.stderr, &mut fds);
        fds
    }
}

impl RuncPipedIO {
    /// The set without any pipe.
    pub fn empty() -> (r: Self)
        ensures
            r@ == IoView::empty(),
    {
        RuncPipedIO { stdin: None, stdout: None, stderr: None }
    }

    /// Makes `pipe` the pipe that serves `stream`.
    pub(crate) fn put(&mut self, stream: Stream, pipe: Pipe)
        ensures
            final(self)@ == old(self)@.with_pipe(stream, pipe@),
    {
        match stream {
            Stream::Stdin => {
                self.stdin = Some(pipe);
            },
            Stream::Stdout => {
                self.stdout = Some(pipe);
            },
            Stream::Stderr => {
                self.stderr = Some(pipe);
            },
        }
    }

    /// The descriptor of the child's end of the pipe that serves `stream`.
    pub(crate) fn far_fd(&self, stream: Stream) -> (r: Option<i32>)
        ensures
            r == (match self@.pipe(stream) {
                Some(pipe) => Some(pipe.far_fd(stream)),
                None => None,
            }),
    {
        match stream {
            Stream::Stdin => match &self.stdin {
                Some(pipe) => Some(pipe.read_fd()),
                None => None,
            },
            Stream::Stdout => match &self.stdout {
                Some(pipe) => Some(pipe.write_fd()),
                None => None,
            },
            Stream::Stderr => match &self.stderr {
                Some(pipe) => Some(pipe.write_fd()),
                None => None,
            },
        }
    }

    /// Whether `fd` is a descriptor of one of the pipes.
    pub fn holds(&self, fd: i32) -> (r: bool)
        ensures
            r == self@.holds(fd),
    {
        pipe_has(&self.stdin, fd) || pipe_has(&self.stdout, fd) || pipe_has(&self.stderr, fd)
    }
}

/// Whether `fd` is a descriptor of the pipe, if there is one.
fn pipe_has(pipe: &Option<Pipe>, fd: i32) -> (r: bool)
    ensures
        r == pipe_holds(pipe_view(*pipe), fd),
{
    match pipe {
        Some(pipe) => pipe.read_fd() == fd || pipe.write_fd() == fd,
        None => false,
    }
}

/// A concatenation contains what one of its parts contains.
pub(crate) proof fn lemma_contains_add(a: Seq<i32>, b: Seq<i32>, fd: i32)
    ensures
        (a + b).contains(fd) <==> a.contains(fd) || b.contains(fd),
{
    if a.contains(fd) {
        let i = choose|i: int| 0 <= i < a.len() && a[i] == fd;
        assert((a + b)[i] == fd);
    }
    if b.contains(fd) {
        let i = choose|i: int| 0 <= i < b.len() && b[i] == fd;
        assert((a + b)[a.len() + i] == fd);
    }
    if (a + b).contains(fd) {
        let i = choose|i: int| 0 <= i < (a + b).len() && (a + b)[i] == fd;
        assert(if i < a.len() {
            a[i] == fd
        } else {
            b[i - a.len()] == fd
        });
    }
}

/// The open ends of a pipe whose ends are both open are its descriptors.
pub(crate) proof fn lemma_owned_by_open(pipe: Option<PipeView>, fd: i32)
    requires
        both_open(pipe),
    ensures
        pipe_holds(pipe, fd) <==> owned_by(pipe).contains(fd),
{
    if let Some(p) = pipe {
        assert(p.owned()[0] == p.read_fd);
        assert(p.owned()[1] == p.write_fd);
    }
}

/// Every descriptor of the open ends of a pipe is a descriptor of the pipe.
proof fn lemma_owned_by_held(pipe: Option<PipeView>, fd: i32)
    ensures
        owned_by(pipe).contains(fd) ==> pipe_holds(pipe, fd),
{
}

/// The open ends of a valid pipe are different descriptors.
proof fn lemma_owned_by_distinct(pipe: Option<PipeView>)
    requires
        valid_pipe(pipe),
    ensures
        owned_by(pipe).no_duplicates(),
{
}

/// The accessor of a stream yields a descriptor exactly where the stream has
/// a pipe; the descriptor is then valid, and differs from the one that the
/// accessor of any other stream yields.
pub proof fn lemma_near_fds(io: IoView, a: Stream, b: Stream)
    requires
        io.well_formed(),
    ensures
        io.near_fd(a) is Some <==> io.pipe(a) is Some,
        io.near_fd(a) matches Some(fd) ==> fd >= 0,
        a != b && io.near_fd(a) is Some ==> io.near_fd(a) != io.near_fd(b),
{
}

/// Closing hands out descriptors of the set only, and each only once.
pub proof fn lemma_owned(io: IoView)
    requires
        io.well_formed(),
    ensures
        io.owned().no_duplicates(),
        forall|fd: i32| io.owned().contains(fd) ==> io.holds(fd),
{
    let a = owned_by(io.stdin);
    let b = owned_by(io.stdout);
    let c = owned_by(io.stderr);
    assert forall|fd: i32| io.owned().contains(fd) implies io.holds(fd) by {
        lemma_contains_add(a + b, c, fd);
        lemma_contains_add(a, b, fd);
        lemma_owned_by_held(io.stdin, fd);
        lemma_owned_by_held(io.stdout, fd);
        lemma_owned_by_held(io.stderr, fd);
    }
    lemma_owned_by_distinct(io.stdin);
    lemma_owned_by_distinct(io.stdout);
    lemma_owned_by_distinct(io.stderr);
    assert forall|i: int, j: int| 0 <= i < a.len() && 0 <= j < b.len() implies a[i] != b[j] by {
        lemma_owned_by_held(io.stdin, a[i]);
        lemma_owned_by_held(io.stdout, b[j]);
    }
    vstd::seq_lib::lemma_no_dup_in_concat(a, b);
    assert forall|i: int, j: int| 0 <= i < (a + b).len() && 0 <= j < c.len() implies (a + b)[i]
        != c[j] by {
        lemma_contains_add(a, b, (a + b)[i]);
        lemma_owned_by_held(io.stdin, (a + b)[i]);
        lemma_owned_by_held(io.stdout, (a + b)[i]);
        lemma_owned_by_held(io.stderr, c[j]);
    }
    vstd::seq_lib::lemma_no_dup_in_concat(a + b, c);
}

/// Closing a set twice is closing it once: after the first time nothing is
/// left to hand out, a second time changes nothing, and the descriptors that
/// the accessors yield stay what they were.
pub proof fn lemma_close_idempotent(io: IoView)
    ensures
        io.closed().owned() == Seq::<i32>::empty(),
        io.closed().closed() == io.closed(),
        forall|stream: Stream| #[trigger] io.closed().near_fd(stream) == io.near_fd(stream),
        io.well_formed() ==> io.closed().well_formed(),
{
}

/// What was handed out to be attached to a child is not handed out to be
/// closed afterwards, neither on closing the set nor on releasing the
/// child's ends.
pub proof fn lemma_wired_are_not_closed(io: IoView, fd: i32)
    requires
        io.well_formed(),
        io.wiring().stdin == Some(fd) || io.wiring().stdout == Some(fd) || io.wiring().stderr
            == Some(fd),
    ensures
        !io.wired().owned().contains(fd),
        !io.wired().child_ends().contains(fd),
{
    let w = io.wired();
    let a = owned_by(w.stdin);
    let b = owned_by(w.stdout);
    let c = owned_by(w.stderr);
    lemma_contains_add(a + b, c, fd);
    lemma_contains_add(a, b, fd);
    lemma_contains_add(releasable(w.stdout), releasable(w.stderr), fd);
}

/// The child's ends that are released after the start were open, and are
/// not handed out again when the set is closed.
pub proof fn lemma_released_are_not_closed_again(io: IoView, fd: i32)
    requires
        io.well_formed(),
        io.child_ends().contains(fd),
    ensures
        io.owned().contains(fd),
        !io.released().owned().contains(fd),
{
    let r = io.released();
    lemma_contains_add(releasable(io.stdout), releasable(io.stderr), fd);
    lemma_contains_add(owned_by(io.stdin) + owned_by(io.stdout), owned_by(io.stderr), fd);
    lemma_contains_add(owned_by(io.stdin), owned_by(io.stdout), fd);
    lemma_contains_add(owned_by(r.stdin) + owned_by(r.stdout), owned_by(r.stderr), fd);
    lemma_contains_add(owned_by(r.stdin), owned_by(r.stdout), fd);
    if let Some(p) = io.stdout {
        if p.write_end == EndState::Open {
            assert(p.owned().last() == p.write_fd);
        }
    }
    if let Some(p) = io.stderr {
        if p.write_end == EndState::Open {
            assert(p.owned().last() == p.write_fd);
        }
    }
}

} // verus!
