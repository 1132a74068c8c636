use runc_shim::Phase;
use runc_shim::{IOOption, IoSetup, IoStep, Pipe, RuncIO, RuncPipedIO, Stream, Wiring};

/// Opens the set with descriptors counted up from `first`, as an operating
/// system that never fails would.
fn open_with_counted_descriptors(opts: IOOption, first: i32) -> RuncPipedIO {
    let mut setup = RuncPipedIO::new(1000, 1000, opts);
    let mut next = first;
    loop {
        match setup.step() {
            IoStep::OpenPipe(_) => {
                assert!(setup.pipe_opened(next, next + 1));
                next += 2;
            }
            IoStep::Chown { uid, gid, .. } => {
                assert_eq!((uid, gid), (1000, 1000));
                assert!(setup.chowned());
            }
            IoStep::Finish => return setup.finish().expect("not ready"),
            IoStep::Failed => panic!("the opening failed"),
        }
    }
}

fn options(stdin: bool, stdout: bool, stderr: bool) -> IOOption {
    IOOption {
        open_stdin: stdin,
        open_stdout: stdout,
        open_stderr: stderr,
    }
}

#[test]
fn by_default_every_stream_gets_a_pipe() {
    assert_eq!(IOOption::default(), options(true, true, true));
}

#[test]
fn accessors_yield_descriptors_for_requested_streams_only() {
    for bits in 0..8 {
        let opts = options(bits & 1 != 0, bits & 2 != 0, bits & 4 != 0);
        let io = open_with_counted_descriptors(opts, 10);
        assert_eq!(io.stdin().is_some(), opts.open_stdin);
        assert_eq!(io.stdout().is_some(), opts.open_stdout);
        assert_eq!(io.stderr().is_some(), opts.open_stderr);
        let near: Vec<i32> = [io.stdin(), io.stdout(), io.stderr()]
            .into_iter()
            .flatten()
            .collect();
        for (i, a) in near.iter().enumerate() {
            assert!(*a >= 0);
            for b in &near[i + 1..] {
                assert_ne!(a, b);
            }
        }
    }
}

#[test]
fn the_parent_writes_to_stdin_and_reads_the_outputs() {
    let io = open_with_counted_descriptors(options(true, true, true), 10);
    // pipes are (10, 11), (12, 13), (14, 15): read end first
    assert_eq!(io.stdin(), Some(11));
    assert_eq!(io.stdout(), Some(12));
    assert_eq!(io.stderr(), Some(14));
}

#[test]
fn the_steps_of_an_opening_come_in_order() {
    let mut setup = RuncPipedIO::new(7, 8, options(true, false, true));
    assert_eq!(setup.phase(), Phase::Opening(Stream::Stdin));
    assert_eq!(setup.step(), IoStep::OpenPipe(Stream::Stdin));
    assert!(!setup.chowned());
    assert!(setup.pipe_opened(3, 4));
    assert_eq!(
        setup.step(),
        IoStep::Chown {
            fd: 3,
            uid: 7,
            gid: 8
        }
    );
    assert!(!setup.pipe_opened(5, 6));
    assert!(setup.chowned());
    assert_eq!(setup.step(), IoStep::OpenPipe(Stream::Stderr));
    assert!(setup.pipe_opened(5, 6));
    assert_eq!(
        setup.step(),
        IoStep::Chown {
            fd: 6,
            uid: 7,
            gid: 8
        }
    );
    assert!(setup.chowned());
    assert_eq!(setup.step(), IoStep::Finish);
    assert_eq!(setup.phase(), Phase::Ready);
    let io = setup.finish().unwrap();
    assert_eq!(io.stdin(), Some(4));
    assert_eq!(io.stdout(), None);
    assert_eq!(io.stderr(), Some(5));
}

#[test]
fn owner_ids_are_taken_by_their_lower_bits() {
    let mut setup = RuncPipedIO::new(-1, 4294967296 + 5, options(true, false, false));
    assert!(setup.pipe_opened(3, 4));
    assert_eq!(
        setup.step(),
        IoStep::Chown {
            fd: 3,
            uid: u32::MAX,
            gid: 5
        }
    );
}

#[test]
fn nothing_requested_is_ready_at_once() {
    let setup = RuncPipedIO::new(0, 0, options(false, false, false));
    assert_eq!(setup.step(), IoStep::Finish);
    let mut io = setup.finish().unwrap();
    assert_eq!(io.stdin(), None);
    assert_eq!(io.stdout(), None);
    assert_eq!(io.stderr(), None);
    assert_eq!(io.close(), Vec::<i32>::new());
}

#[test]
fn a_pair_that_is_no_fresh_pipe_is_not_taken() {
    let mut setup = RuncPipedIO::new(0, 0, options(true, true, false));
    assert!(!setup.pipe_opened(-1, 4));
    assert!(!setup.pipe_opened(3, -1));
    assert!(!setup.pipe_opened(3, 3));
    assert_eq!(setup.step(), IoStep::OpenPipe(Stream::Stdin));
    assert!(setup.pipe_opened(3, 4));
    assert!(setup.chowned());
    assert!(!setup.pipe_opened(4, 5));
    assert!(!setup.pipe_opened(5, 3));
    assert_eq!(setup.step(), IoStep::OpenPipe(Stream::Stdout));
    assert!(setup.pipe_opened(5, 6));
}

#[test]
fn an_unfinished_opening_yields_no_set() {
    let mut setup = RuncPipedIO::new(0, 0, options(true, false, false));
    assert!(setup.pipe_opened(3, 4));
    assert!(setup.finish().is_none());
}

#[test]
fn giving_up_hands_out_all_that_was_opened() {
    let mut setup = RuncPipedIO::new(0, 0, options(true, true, true));
    assert!(setup.pipe_opened(3, 4));
    assert!(setup.chowned());
    assert!(setup.pipe_opened(5, 6));
    // the second chown failed
    assert_eq!(setup.abort(), vec![3, 4, 5, 6]);
    assert_eq!(setup.step(), IoStep::Failed);
    assert_eq!(setup.phase(), Phase::Failed);
    assert_eq!(setup.abort(), Vec::<i32>::new());
    assert!(!setup.pipe_opened(7, 8));
    assert!(!setup.chowned());
    assert!(setup.finish().is_none());

    let mut early = RuncPipedIO::new(0, 0, options(true, true, true));
    // the first pipe could not be opened
    assert_eq!(early.abort(), Vec::<i32>::new());
    assert_eq!(early.step(), IoStep::Failed);
}

#[test]
fn closing_twice_closes_once() {
    let mut io = open_with_counted_descriptors(options(true, true, true), 10);
    assert_eq!(io.close(), vec![10, 11, 12, 13, 14, 15]);
    assert_eq!(io.close(), Vec::<i32>::new());
    assert_eq!(io.close(), Vec::<i32>::new());
    assert_eq!(io.stdin(), Some(11));
    assert_eq!(io.stdout(), Some(12));
    assert_eq!(io.stderr(), Some(14));
    assert_eq!(io.close_after_start(), Vec::<i32>::new());
    assert_eq!(
        io.set(),
        Wiring {
            stdin: None,
            stdout: None,
            stderr: None
        }
    );
}

#[test]
fn wiring_moves_the_childs_ends_out_of_the_parents_hands() {
    let mut io = open_with_counted_descriptors(options(true, true, true), 10);
    assert_eq!(
        io.set(),
        Wiring {
            stdin: Some(10),
            stdout: Some(13),
            stderr: Some(15)
        }
    );
    assert_eq!(
        io.set(),
        Wiring {
            stdin: None,
            stdout: None,
            stderr: None
        }
    );
    assert_eq!(io.close_after_start(), Vec::<i32>::new());
    assert_eq!(io.close(), vec![11, 12, 14]);
    assert_eq!(io.close(), Vec::<i32>::new());
}

#[test]
fn after_the_start_the_parent_lets_go_of_the_output_write_ends() {
    let mut io = open_with_counted_descriptors(options(true, true, true), 10);
    assert_eq!(io.close_after_start(), vec![13, 15]);
    assert_eq!(io.close_after_start(), Vec::<i32>::new());
    assert_eq!(io.close(), vec![10, 11, 12, 14]);

    let mut only_stderr = open_with_counted_descriptors(options(false, false, true), 20);
    assert_eq!(only_stderr.close_after_start(), vec![21]);
    assert_eq!(only_stderr.close(), vec![20]);
}

#[test]
fn a_pipe_hands_each_end_out_once() {
    assert!(Pipe::new(-1, 2).is_none());
    assert!(Pipe::new(2, 2).is_none());
    let mut pipe = Pipe::new(8, 9).unwrap();
    assert_eq!(pipe.read_fd(), 8);
    assert_eq!(pipe.write_fd(), 9);
    assert_eq!(pipe.close_write(), Some(9));
    assert_eq!(pipe.close_write(), None);
    assert_eq!(pipe.wire(Stream::Stdout), None);
    assert_eq!(pipe.wire(Stream::Stdin), Some(8));
    assert_eq!(pipe.close_read(), None);
    assert_eq!(pipe.close(), Vec::<i32>::new());
    let mut other = Pipe::new(0, 1).unwrap();
    assert_eq!(other.close(), vec![0, 1]);
    assert_eq!(other.close(), Vec::<i32>::new());
}

/// Opens the set with real pipes, owned by the user who runs the test.
fn open_for_real(opts: IOOption) -> RuncPipedIO {
    let uid = nix::unistd::getuid().as_raw() as isize;
    let gid = nix::unistd::getgid().as_raw() as isize;
    let mut setup: IoSetup = RuncPipedIO::new(uid, gid, opts);
    loop {
        match setup.step() {
            IoStep::OpenPipe(_) => {
                let (read_fd, write_fd) = nix::unistd::pipe().expect("no pipe");
                assert!(setup.pipe_opened(read_fd, write_fd));
            }
            IoStep::Chown { fd, uid, gid } => {
                nix::unistd::fchown(
                    fd,
                    Some(nix::unistd::Uid::from_raw(uid)),
                    Some(nix::unistd::Gid::from_raw(gid)),
                )
                .expect("no chown");
                assert!(setup.chowned());
            }
            IoStep::Finish => return setup.finish().expect("not ready"),
            IoStep::Failed => panic!("the opening failed"),
        }
    }
}

#[test]
fn what_the_child_writes_to_stdout_the_parent_reads() {
    let mut io = open_for_real(options(false, true, false));
    assert_eq!(io.stdin(), None);
    assert_eq!(io.stderr(), None);
    let near = io.stdout().expect("no stdout");
    let wiring = io.set();
    assert_eq!(wiring.stdin, None);
    assert_eq!(wiring.stderr, None);
    let far = wiring.stdout.expect("no end for the child");
    assert_ne!(near, far);

    assert_eq!(nix::unistd::write(far, b"hello").unwrap(), 5);
    let mut buffer = [0u8; 16];
    let n = nix::unistd::read(near, &mut buffer).unwrap();
    assert_eq!(&buffer[..n], b"hello");

    // the child's side closes what was wired to it
    nix::unistd::close(far).unwrap();
    assert_eq!(io.close_after_start(), Vec::<i32>::new());
    // with every write end closed the parent sees the end of the stream
    assert_eq!(nix::unistd::read(near, &mut buffer).unwrap(), 0);
    for fd in io.close() {
        nix::unistd::close(fd).unwrap();
    }
    assert_eq!(io.close(), Vec::<i32>::new());
}

#[test]
fn a_write_end_kept_by_the_parent_is_released_after_the_start() {
    let mut io = open_for_real(options(false, true, false));
    let near = io.stdout().expect("no stdout");
    let released = io.close_after_start();
    assert_eq!(released.len(), 1);
    assert_eq!(nix::unistd::write(released[0], b"x").unwrap(), 1);
    nix::unistd::close(released[0]).unwrap();
    let mut buffer = [0u8; 4];
    assert_eq!(nix::unistd::read(near, &mut buffer).unwrap(), 1);
    assert_eq!(nix::unistd::read(near, &mut buffer).unwrap(), 0);
    assert_eq!(io.close(), vec![near]);
    nix::unistd::close(near).unwrap();
}
