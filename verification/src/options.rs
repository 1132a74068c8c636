//! The options of single verbs and the flags they turn into.

use vstd::prelude::*;
use vstd::string::*;
use crate::text::{push_text, texts};

verus! {

/// Options of the verbs that create a container.
#[derive(Debug, Clone)]
pub struct CreateOpts {
    /// Where the runtime is to write the container's process id.
    pub pid_file: Option<String>,
    /// The socket over which the runtime hands over a console.
    pub console_socket: Option<String>,
    /// Whether to detach from the container's process.
    pub detach: bool,
    /// Whether to do without `pivot_root`.
    pub no_pivot: bool,
    /// Whether to do without a new session keyring.
    pub no_new_keyring: bool,
}

impl CreateOpts {
    /// The flags these options stand for: pid file, console socket, no-pivot,
    /// no-new-keyring and detach, in this order, each only as far as it is set.
    pub open spec fn flags(&self) -> Seq<Seq<char>> {
        (match self.pid_file {
            Some(path) => seq!["--pid-file"@, path@],
            None => seq![],
        }) + (match self.console_socket {
            Some(path) => seq!["--console-socket"@, path@],
            None => seq![],
        }) + (if self.no_pivot {
            seq!["--no-pivot"@]
        } else {
            seq![]
        }) + (if self.no_new_keyring {
            seq!["--no-new-keyring"@]
        } else {
            seq![]
        }) + (if self.detach {
            seq!["--detach"@]
        } else {
            seq![]
        })
    }

    /// Options with nothing set.
    pub fn new() -> (r: Self)
        ensures
            r.pid_file is None,
            r.console_socket is None,
            !r.detach,
            !r.no_pivot,
            !r.no_new_keyring,
            r.flags() == Seq::<Seq<char>>::empty(),
    {
        let r = CreateOpts {
            pid_file: None,
            console_socket: None,
            detach: false,
            no_pivot: false,
            no_new_keyring: false,
        };
        r
    }

    /// Sets the path of the pid file.
    pub fn pid_file(self, pid_file: &str) -> (r: Self)
        ensures
            r.pid_file matches Some(path) && path@ == pid_file@,
            r.console_socket == self.console_socket,
            r.detach == self.detach,
            r.no_pivot == self.no_pivot,
            r.no_new_keyring == self.no_new_keyring,
    {
        let mut next = self;
        next.pid_file = Some(String::from_str(pid_file));
        next
    }

    /// Sets the path of the console socket.
    pub fn console_socket(self, console_socket: &str) -> (r: Self)
        ensures
            r.console_socket matches Some(path) && path@ == console_socket@,
            r.pid_file == self.pid_file,
            r.detach == self.detach,
            r.no_pivot == self.no_pivot,
            r.no_new_keyring == self.no_new_keyring,
    {
        let mut next = self;
        next.console_socket = Some(String::from_str(console_socket));
        next
    }

    /// Sets whether to detach from the container's process.
    pub fn detach(self, detach: bool) -> (r: Self)
        ensures
            r == (CreateOpts { detach: detach, ..self }),
    {
        let mut next = self;
        next.detach = detach;
        next
    }

    /// Sets whether to do without `pivot_root`.
    pub fn no_pivot(self, no_pivot: bool) -> (r: Self)
        ensures
            r == (CreateOpts { no_pivot: no_pivot, ..self }),
    {
        let mut next = self;
        next.no_pivot = no_pivot;
        next
    }

    /// Sets whether to do without a new session keyring.
    pub fn no_new_keyring(self, no_new_keyring: bool) -> (r: Self)
        ensures
            r == (CreateOpts { no_new_keyring: no_new_keyring, ..self }),
    {
        let mut next = self;
        next.no_new_keyring = no_new_keyring;
        next
    }

    /// The flags these options stand for.
    pub fn args(&self) -> (r: Vec<String>)
        ensures
            texts(r@) == self.flags(),
    {
        let mut args: Vec<String> = Vec::new();
        if let Some(path) = &self.pid_file {
            push_text(&mut args, "--pid-file");
            push_text(&mut args, path.as_str());
        }
        if let Some(path) = &self.console_socket {
            push_text(&mut args, "--console-socket");
            push_text(&mut args, path.as_str());
        }
        if self.no_pivot {
            push_text(&mut args, "--no-pivot");
        }
        if self.no_new_keyring {
            push_text(&mut args, "--no-new-keyring");
        }
        if self.detach {
            push_text(&mut args, "--detach");
        }
        args
    }
}

/// Options of the verb that runs a further process in a container.
#[derive(Debug, Clone)]
pub struct ExecOpts {
    /// Where the runtime is to write the process id.
    pub pid_file: Option<String>,
    /// The socket over which the runtime hands over a console.
    pub console_socket: Option<String>,
    /// Whether to detach from the process.
    pub detach: bool,
}

impl ExecOpts {
    /// The flags these options stand for: console socket, detach and pid
    /// file, in this order, each only as far as it is set.
    pub open spec fn flags(&self) -> Seq<Seq<char>> {
        (match self.console_socket {
            Some(path) => seq!["--console-socket"@, path@],
            None => seq![],
        }) + (if self.detach {
            seq!["--detach"@]
        } else {
            seq![]
        }) + (match self.pid_file {
            Some(path) => seq!["--pid-file"@, path@],
            None => seq![],
        })
    }

    /// Options with nothing set.
    pub fn new() -> (r: Self)
        ensures
            r.pid_file is None,
            r.console_socket is None,
            !r.detach,
            r.flags() == Seq::<Seq<char>>::empty(),
    {
        let r = ExecOpts { pid_file: None, console_socket: None, detach: false };
        r
    }

    /// Sets the path of the pid file.
    pub fn pid_file(self, pid_file: &str) -> (r: Self)
        ensures
            r.pid_file matches Some(path) && path@ == pid_file@,
            r.console_socket == self.console_socket,
            r.detach == self.detach,
    {
        let mut next = self;
        next.pid_file = Some(String::from_str(pid_file));
        next
    }

    /// Sets the path of the console socket.
    pub fn console_socket(self, console_socket: &str) -> (r: Self)
        ensures
            r.console_socket matches Some(path) && path@ == console_socket@,
            r.pid_file == self.pid_file,
            r.detach == self.detach,
    {
        let mut next = self;
        next.console_socket = Some(String::from_str(console_socket));
        next
    }

    /// Sets whether to detach from the process.
    pub fn detach(self, detach: bool) -> (r: Self)
        ensures
            r == (ExecOpts { detach: detach, ..self }),
    {
        let mut next = self;
        next.detach = detach;
        next
    }

    /// The flags these options stand for.
    pub fn args(&self) -> (r: Vec<String>)
        ensures
            texts(r@) == self.flags(),
    {
        let mut args: Vec<String> = Vec::new();
        if let Some(path) = &self.console_socket {
            push_text(&mut args, "--console-socket");
            push_text(&mut args, path.as_str());
        }
        if self.detach {
            push_text(&mut args, "--detach");
        }
        if let Some(path) = &self.pid_file {
            push_text(&mut args, "--pid-file");
            push_text(&mut args, path.as_str());
        }
        args
    }
}

/// Options of the verb that deletes a container.
#[derive(Debug, Clone, Copy, PartialEq, Eq, Structural)]
pub struct DeleteOpts {
    /// Whether to delete a container that is still running.
    pub force: bool,
}

impl DeleteOpts {
    /// The flags these options stand for.
    pub open spec fn flags(&self) -> Seq<Seq<char>> {
        if self.force {
            seq!["--force"@]
        } else {
            seq![]
        }
    }

    /// Options with nothing set.
    pub fn new() -> (r: Self)
        ensures
            !r.force,
    {
        DeleteOpts { force: false }
    }

    /// Sets whether to delete a container that is still running.
    pub fn force(self, force: bool) -> (r: Self)
        ensures
            r.force == force,
    {
        DeleteOpts { force }
    }

    /// The flags these options stand for.
    pub fn args(&self) -> (r: Vec<String>)
        ensures
            texts(r@) == self.flags(),
    {
        let mut args: Vec<String> = Vec::new();
        if self.force {
            push_text(&mut args, "--force");
        }
        args
    }
}

/// Options of the verb that signals a container.
#[derive(Debug, Clone, Copy, PartialEq, Eq, Structural)]
pub struct KillOpts {
    /// Whether to signal every process of the container.
    pub all: bool,
}

impl KillOpts {
    /// The flags these options stand for.
    pub open spec fn flags(&self) -> Seq<Seq<char>> {
        if self.all {
            seq!["--all"@]
        } else {
            seq![]
        }
    }

    /// Options with nothing set.
    pub fn new() -> (r: Self)
        ensures
            !r.all,
    {
        KillOpts { all: false }
    }

    /// Sets whether to signal every process of the container.
    pub fn all(self, all: bool) -> (r: Self)
        ensures
            r.all == all,
    {
        KillOpts { all }
    }

    /// The flags these options stand for.
    pub fn args(&self) -> (r: Vec<String>)
        ensures
            texts(r@) == self.flags(),
    {
        let mut args: Vec<String> = Vec::new();
        if self.all {
            push_text(&mut args, "--all");
        }
        args
    }
}

} // verus!
