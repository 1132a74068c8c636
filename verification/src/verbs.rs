//! The argument vector of each verb of the runtime binary.

use vstd::prelude::*;
use vstd::string::*;
use crate::config::{global_args, Runc, RuncView};
use crate::options::{CreateOpts, DeleteOpts, ExecOpts, KillOpts};
use crate::text::{decimal, decimal_string, push_text, push_texts, texts};

verus! {

/// The layout of an invocation's arguments: the global flags first, then the
/// verb, then the verb's own flags, and the container's id last.
pub open spec fn invocation_args(
    global: Seq<Seq<char>>,
    verb: Seq<char>,
    flags: Seq<Seq<char>>,
    id: Seq<char>,
) -> Seq<Seq<char>> {
    global + seq![verb] + flags + seq![id]
}

/// The flags of optional options for creating a container.
pub open spec fn create_flags(opts: Option<&CreateOpts>) -> Seq<Seq<char>> {
    match opts {
        Some(opts) => opts.flags(),
        None => seq![],
    }
}

/// The flags of optional options for running a further process.
pub open spec fn exec_flags(opts: Option<&ExecOpts>) -> Seq<Seq<char>> {
    match opts {
        Some(opts) => opts.flags(),
        None => seq![],
    }
}

/// The flags of optional options for deleting a container.
pub open spec fn delete_flags(opts: Option<&DeleteOpts>) -> Seq<Seq<char>> {
    match opts {
        Some(opts) => opts.flags(),
        None => seq![],
    }
}

/// The flags of optional options for signalling a container.
pub open spec fn kill_flags(opts: Option<&KillOpts>) -> Seq<Seq<char>> {
    match opts {
        Some(opts) => opts.flags(),
        None => seq![],
    }
}

/// Arguments given as they are, behind the global flags.
pub open spec fn command_args(c: RuncView, args: Seq<Seq<char>>) -> Seq<Seq<char>> {
    global_args(c) + args
}

/// The arguments that create the container `id` from `bundle`.
pub open spec fn create_args(
    c: RuncView,
    id: Seq<char>,
    bundle: Seq<char>,
    opts: Option<&CreateOpts>,
) -> Seq<Seq<char>> {
    invocation_args(global_args(c), "create"@, seq!["--bundle"@, bundle] + create_flags(opts), id)
}

/// The arguments that delete the container `id`.
pub open spec fn delete_args(c: RuncView, id: Seq<char>, opts: Option<&DeleteOpts>) -> Seq<
    Seq<char>,
> {
    invocation_args(global_args(c), "delete"@, delete_flags(opts), id)
}

/// The arguments that run, in the container `id`, the process described in
/// the file `process_file`, whose path is the value of the flag `--process`.
pub open spec fn exec_args(
    c: RuncView,
    id: Seq<char>,
    process_file: Seq<char>,
    opts: Option<&ExecOpts>,
) -> Seq<Seq<char>> {
    invocation_args(
        global_args(c),
        "exec"@,
        seq!["--process"@, process_file] + exec_flags(opts),
        id,
    )
}

/// The arguments that send signal `sig` to the container `id`; the signal's
/// number follows the id.
pub open spec fn kill_args(c: RuncView, id: Seq<char>, sig: u32, opts: Option<&KillOpts>) -> Seq<
    Seq<char>,
> {
    invocation_args(global_args(c), "kill"@, kill_flags(opts), id).push(decimal(sig as nat))
}

/// The arguments that list the containers, which name no container.
pub open spec fn list_args(c: RuncView) -> Seq<Seq<char>> {
    global_args(c) + seq!["list"@, "--format-json"@]
}

/// The arguments that suspend the container `id`.
pub open spec fn pause_args(c: RuncView, id: Seq<char>) -> Seq<Seq<char>> {
    invocation_args(global_args(c), "pause"@, seq![], id)
}

/// The arguments that let the suspended container `id` go on.
pub open spec fn resume_args(c: RuncView, id: Seq<char>) -> Seq<Seq<char>> {
    invocation_args(global_args(c), "resume"@, seq![], id)
}

/// The arguments that list the processes of the container `id`.
pub open spec fn ps_args(c: RuncView, id: Seq<char>) -> Seq<Seq<char>> {
    invocation_args(global_args(c), "ps"@, seq!["--format-json"@], id)
}

/// The arguments that create, start and delete the container `id` from
/// `bundle` in one go; the bundle follows its flag directly, as for `create`.
pub open spec fn run_args(
    c: RuncView,
    id: Seq<char>,
    bundle: Seq<char>,
    opts: Option<&CreateOpts>,
) -> Seq<Seq<char>> {
    invocation_args(global_args(c), "run"@, seq!["--bundle"@, bundle] + create_flags(opts), id)
}

/// The arguments that start the container `id`.
pub open spec fn start_args(c: RuncView, id: Seq<char>) -> Seq<Seq<char>> {
    invocation_args(global_args(c), "start"@, seq![], id)
}

/// The arguments that query the state of the container `id`.
pub open spec fn state_args(c: RuncView, id: Seq<char>) -> Seq<Seq<char>> {
    invocation_args(global_args(c), "state"@, seq![], id)
}

/// The arguments that query the statistics of the container `id`.
pub open spec fn stats_args(c: RuncView, id: Seq<char>) -> Seq<Seq<char>> {
    invocation_args(global_args(c), "events"@, seq!["--stats"@], id)
}

/// The arguments that apply the resource limits in the file
/// `resources_file` to the container `id`.
pub open spec fn update_args(c: RuncView, id: Seq<char>, resources_file: Seq<char>) -> Seq<
    Seq<char>,
> {
    invocation_args(global_args(c), "update"@, seq!["--resources"@, resources_file], id)
}

/// In an invocation's arguments the global flags come first and unchanged,
/// the verb follows them, the verb's flags follow the verb, and the id is
/// the last argument.
pub proof fn lemma_invocation_args_layout(
    global: Seq<Seq<char>>,
    verb: Seq<char>,
    flags: Seq<Seq<char>>,
    id: Seq<char>,
)
    ensures
        ({
            let args = invocation_args(global, verb, flags, id);
            &&& args.len() == global.len() + flags.len() + 2
            &&& args.subrange(0, global.len() as int) == global
            &&& args[global.len() as int] == verb
            &&& args.subrange(global.len() + 1 as int, global.len() + 1 + flags.len() as int)
                == flags
            &&& args.last() == id
        }),
{
    let args = invocation_args(global, verb, flags, id);
    assert(args.subrange(global.len() + 1 as int, global.len() + 1 + flags.len() as int)
        =~= flags);
}

/// The arguments of an invocation are determined by the settings, the verb,
/// the verb's flags and the id: equal inputs give equal arguments.
pub proof fn lemma_invocation_args_deterministic(
    a: RuncView,
    b: RuncView,
    verb_a: Seq<char>,
    verb_b: Seq<char>,
    flags_a: Seq<Seq<char>>,
    flags_b: Seq<Seq<char>>,
    id_a: Seq<char>,
    id_b: Seq<char>,
)
    requires
        a == b,
        verb_a == verb_b,
        flags_a == flags_b,
        id_a == id_b,
    ensures
        invocation_args(global_args(a), verb_a, flags_a, id_a) == invocation_args(
            global_args(b),
            verb_b,
            flags_b,
            id_b,
        ),
{
}

/// Resuming and suspending are told apart by their verbs: the two never
/// plan the same arguments.
pub proof fn lemma_resume_is_not_pause(c: RuncView, id: Seq<char>)
    ensures
        resume_args(c, id) != pause_args(c, id),
        resume_args(c, id)[global_args(c).len() as int] == "resume"@,
        pause_args(c, id)[global_args(c).len() as int] == "pause"@,
{
    reveal_strlit("resume");
    reveal_strlit("pause");
    let at = global_args(c).len() as int;
    assert(resume_args(c, id)[at] == "resume"@);
    assert(pause_args(c, id)[at] == "pause"@);
    assert("resume"@.len() != "pause"@.len());
}

/// A path that a verb passes on is the value of its flag: it follows the
/// flag directly, before any flag of the options. So it is with the bundle
/// of `create` and `run`, with the process file of `exec` and with the
/// resources file of `update`.
pub proof fn lemma_paths_follow_their_flags(
    c: RuncView,
    id: Seq<char>,
    path: Seq<char>,
    create: Option<&CreateOpts>,
    exec: Option<&ExecOpts>,
)
    ensures
        ({
            let at = global_args(c).len() as int;
            &&& create_args(c, id, path, create)[at] == "create"@
            &&& create_args(c, id, path, create)[at + 1] == "--bundle"@
            &&& create_args(c, id, path, create)[at + 2] == path
            &&& run_args(c, id, path, create)[at] == "run"@
            &&& run_args(c, id, path, create)[at + 1] == "--bundle"@
            &&& run_args(c, id, path, create)[at + 2] == path
            &&& exec_args(c, id, path, exec)[at] == "exec"@
            &&& exec_args(c, id, path, exec)[at + 1] == "--process"@
            &&& exec_args(c, id, path, exec)[at + 2] == path
            &&& update_args(c, id, path)[at] == "update"@
            &&& update_args(c, id, path)[at + 1] == "--resources"@
            &&& update_args(c, id, path)[at + 2] == path
        }),
{
}

impl Runc {
    /// Builds the arguments of one invocation: the global flags of these
    /// settings, the verb, the verb's flags and the container's id. The
    /// result is determined by the inputs: equal inputs give equal vectors.
    pub fn build_args(&self, verb: &str, flags: &[String], id: &str) -> (r: Vec<String>)
        ensures
            texts(r@) == invocation_args(global_args(self@), verb@, texts(flags@), id@),
    {
        let mut args = self.args();
        push_text(&mut args, verb);
        push_texts(&mut args, flags);
        push_text(&mut args, id);
        args
    }

    /// The given arguments behind the global flags.
    pub fn command_args(&self, args: &[String]) -> (r: Vec<String>)
        ensures
            texts(r@) == command_args(self@, texts(args@)),
    {
        let mut all = self.args();
        push_texts(&mut all, args);
        all
    }

    /// The arguments that create the container `id` from `bundle`.
    pub fn create_args(&self, id: &str, bundle: &str, opts: Option<&CreateOpts>) -> (r: Vec<
        String,
    >)
        ensures
            texts(r@) == create_args(self@, id@, bundle@, opts),
    {
        let mut flags: Vec<String> = Vec::new();
        push_text(&mut flags, "--bundle");
        push_text(&mut flags, bundle);
        if let Some(opts) = opts {
            let more = opts.args();
            push_texts(&mut flags, more.as_slice());
        }
        self.build_args("create", flags.as_slice(), id)
    }

    /// The arguments that delete the container `id`.
    pub fn delete_args(&self, id: &str, opts: Option<&DeleteOpts>) -> (r: Vec<String>)
        ensures
            texts(r@) == delete_args(self@, id@, opts),
    {
        let flags = match opts {
            Some(opts) => opts.args(),
            None => Vec::new(),
        };
        self.build_args("delete", flags.as_slice(), id)
    }

    /// The arguments that run, in the container `id`, the process described
    /// in the file `process_file`.
    pub fn exec_args(&self, id: &str, process_file: &str, opts: Option<&ExecOpts>) -> (r: Vec<
        String,
    >)
        ensures
            texts(r@) == exec_args(self@, id@, process_file@, opts),
    {
        let mut flags: Vec<String> = Vec::new();
        push_text(&mut flags, "--process");
        push_text(&mut flags, process_file);
        if let Some(opts) = opts {
            let more = opts.args();
            push_texts(&mut flags, more.as_slice());
        }
        self.build_args("exec", flags.as_slice(), id)
    }

    /// The arguments that send signal `sig` to the container `id`.
    pub fn kill_args(&self, id: &str, sig: u32, opts: Option<&KillOpts>) -> (r: Vec<String>)
        ensures
            texts(r@) == kill_args(self@, id@, sig, opts),
    {
        let flags = match opts {
            Some(opts) => opts.args(),
            None => Vec::new(),
        };
        let mut args = self.build_args("kill", flags.as_slice(), id);
        let number = decimal_string(sig);
        push_text(&mut args, number.as_str());
        args
    }

    /// The arguments that list the containers.
    pub fn list_args(&self) -> (r: Vec<String>)
        ensures
            texts(r@) == list_args(self@),
    {
        let mut args = self.args();
        push_text(&mut args, "list");
        push_text(&mut args, "--format-json");
        args
    }

    /// The arguments that suspend the container `id`.
    pub fn pause_args(&self, id: &str) -> (r: Vec<String>)
        ensures
            texts(r@) == pause_args(self@, id@),
    {
        let flags: Vec<String> = Vec::new();
        self.build_args("pause", flags.as_slice(), id)
    }

    /// The arguments that let the suspended container `id` go on.
    pub fn resume_args(&self, id: &str) -> (r: Vec<String>)
        ensures
            texts(r@) == resume_args(self@, id@),
    {
        let flags: Vec<String> = Vec::new();
        self.build_args("resume", flags.as_slice(), id)
    }

    /// The arguments that list the processes of the container `id`.
    pub fn ps_args(&self, id: &str) -> (r: Vec<String>)
        ensures
            texts(r@) == ps_args(self@, id@),
    {
        let mut flags: Vec<String> = Vec::new();
        push_text(&mut flags, "--format-json");
        self.build_args("ps", flags.as_slice(), id)
    }

    /// The arguments that create, start and delete the container `id` in one
    /// go.
    pub fn run_args(&self, id: &str, bundle: &str, opts: Option<&CreateOpts>) -> (r: Vec<String>)
        ensures
            texts(r@) == run_args(self@, id@, bundle@, opts),
    {
        let mut flags: Vec<String> = Vec::new();
        push_text(&mut flags, "--bundle");
        push_text(&mut flags, bundle);
        if let Some(opts) = opts {
            let more = opts.args();
            push_texts(&mut flags, more.as_slice());
        }
        self.build_args("run", flags.as_slice(), id)
    }

    /// The arguments that start the container `id`.
    pub fn start_args(&self, id: &str) -> (r: Vec<String>)
        ensures
            texts(r@) == start_args(self@, id@),
    {
        let flags: Vec<String> = Vec::new();
        self.build_args("start", flags.as_slice(), id)
    }

    /// The arguments that query the state of the container `id`.
    pub fn state_args(&self, id: &str) -> (r: Vec<String>)
        ensures
            texts(r@) == state_args(self@, id@),
    {
        let flags: Vec<String> = Vec::new();
        self.build_args("state", flags.as_slice(), id)
    }

    /// The arguments that query the statistics of the container `id`.
    pub fn stats_args(&self, id: &str) -> (r: Vec<String>)
        ensures
            texts(r@) == stats_args(self@, id@),
    {
        let mut flags: Vec<String> = Vec::new();
        push_text(&mut flags, "--stats");
        self.build_args("events", flags.as_slice(), id)
    }

    /// The arguments that apply the resource limits in the file
    /// `resources_file` to the container `id`.
    pub fn update_args(&self, id: &str, resources_file: &str) -> (r: Vec<String>)
        ensures
            texts(r@) == update_args(self@, id@, resources_file@),
    {
        let mut flags: Vec<String> = Vec::new();
        push_text(&mut flags, "--resources");
        push_text(&mut flags, resources_file);
        self.build_args("update", flags.as_slice(), id)
    }
}

} // verus!
