//! The invocation configuration and the global flags derived from it.

use vstd::prelude::*;
use vstd::string::*;
use crate::text::{opt_text, push_text, texts};

verus! {

/// The binary that is run when the configuration names none.
pub const DEFAULT_COMMAND: &'static str = "runc";

/// The time, in milliseconds, granted to an invocation when the configuration
/// sets none.
pub const DEFAULT_TIMEOUT_MS: u64 = 5000;

/// The format in which the runtime binary writes its log.
#[derive(Debug, Clone, Copy, PartialEq, Eq, Structural)]
pub enum LogFormat {
    Json,
    Text,
}

impl LogFormat {
    /// The token that stands for the format on the command line.
    pub open spec fn text(self) -> Seq<char> {
        match self {
            LogFormat::Json => "json"@,
            LogFormat::Text => "text"@,
        }
    }

    /// The token that stands for the format on the command line.
    pub fn as_str(&self) -> (r: &'static str)
        ensures
            r@ == self.text(),
    {
        match self {
            LogFormat::Json => "json",
            LogFormat::Text => "text",
        }
    }

    /// The token that stands for the format on the command line.
    pub fn to_string(&self) -> (r: String)
        ensures
            r@ == self.text(),
    {
        String::from_str(self.as_str())
    }
}

/// What a configuration under construction holds; unset entries fall back to
/// their defaults when the configuration is built.
pub struct ConfigView {
    pub command: Option<Seq<char>>,
    pub root: Option<Seq<char>>,
    pub debug: bool,
    pub log: Option<Seq<char>>,
    pub log_format: Option<LogFormat>,
    pub systemd_cgroup: bool,
    pub rootless: Option<bool>,
    pub set_pgid: bool,
    pub timeout: Option<u64>,
}

impl ConfigView {
    /// The configuration in which nothing has been set.
    pub open spec fn unset() -> ConfigView {
        ConfigView {
            command: None,
            root: None,
            debug: false,
            log: None,
            log_format: None,
            systemd_cgroup: false,
            rootless: None,
            set_pgid: false,
            timeout: None,
        }
    }

    /// The settings that result from building this configuration.
    pub open spec fn built(self) -> RuncView {
        RuncView {
            command: match self.command {
                Some(command) => command,
                None => DEFAULT_COMMAND@,
            },
            root: self.root,
            debug: self.debug,
            log: self.log,
            log_format: match self.log_format {
                Some(format) => format,
                None => LogFormat::Text,
            },
            systemd_cgroup: self.systemd_cgroup,
            rootless: self.rootless,
            set_pgid: self.set_pgid,
            timeout: match self.timeout {
                Some(millis) => millis,
                None => DEFAULT_TIMEOUT_MS,
            },
        }
    }
}

/// What built settings hold.
pub struct RuncView {
    pub command: Seq<char>,
    pub root: Option<Seq<char>>,
    pub debug: bool,
    pub log: Option<Seq<char>>,
    pub log_format: LogFormat,
    pub systemd_cgroup: bool,
    pub rootless: Option<bool>,
    pub set_pgid: bool,
    pub timeout: u64,
}

/// The flag that carries the rootless setting.
pub open spec fn rootless_flag(rootless: bool) -> Seq<char> {
    if rootless {
        "--rootless=true"@
    } else {
        "--rootless=false"@
    }
}

/// The flags that precede the verb of every invocation: root, debug, log
/// path, log format, systemd-cgroup and rootless, in this order, each present
/// only as far as it is set.
pub open spec fn global_args(c: RuncView) -> Seq<Seq<char>> {
    (match c.root {
        Some(root) => seq!["--root"@, root],
        None => seq![],
    }) + (if c.debug {
        seq!["--debug"@]
    } else {
        seq![]
    }) + (match c.log {
        Some(log) => seq!["--log"@, log],
        None => seq![],
    }) + seq!["--log-format"@, c.log_format.text()] + (if c.systemd_cgroup {
        seq!["--systemd-cgroup"@]
    } else {
        seq![]
    }) + (match c.rootless {
        Some(rootless) => seq![rootless_flag(rootless)],
        None => seq![],
    })
}

/// Built settings: immutable, and the source of the global flags of every
/// invocation.
#[derive(Debug, Clone)]
pub struct Runc {
    command: String,
    root: Option<String>,
    debug: bool,
    log: Option<String>,
    log_format: LogFormat,
    systemd_cgroup: bool,
    rootless: Option<bool>,
    set_pgid: bool,
    timeout: u64,
}

impl View for Runc {
    type V = RuncView;

    closed spec fn view(&self) -> RuncView {
        RuncView {
            command: self.command@,
            root: opt_text(self.root),
            debug: self.debug,
            log: opt_text(self.log),
            log_format: self.log_format,
            systemd_cgroup: self.systemd_cgroup,
            rootless: self.rootless,
            set_pgid: self.set_pgid,
            timeout: self.timeout,
        }
    }
}

impl Runc {
    /// The path of the binary to run.
    pub fn command(&self) -> (r: &str)
        ensures
            r@ == self@.command,
    {
        self.command.as_str()
    }

    /// Whether the binary is to run in a process group of its own.
    pub fn set_pgid(&self) -> (r: bool)
        ensures
            r == self@.set_pgid,
    {
        self.set_pgid
    }

    /// The time granted to an invocation, in milliseconds.
    pub fn timeout(&self) -> (r: u64)
        ensures
            r == self@.timeout,
    {
        self.timeout
    }

    /// The global flags of every invocation made with these settings.
    pub fn args(&self) -> (r: Vec<String>)
        ensures
            texts(r@) == global_args(self@),
    {
        let mut args: Vec<String> = Vec::new();
        if let Some(root) = &self.root {
            push_text(&mut args, "--root");
            push_text(&mut args, root.as_str());
        }
        if self.debug {
            push_text(&mut args, "--debug");
        }
        if let Some(log) = &self.log {
            push_text(&mut args, "--log");
            push_text(&mut args, log.as_str());
        }
        push_text(&mut args, "--log-format");
        push_text(&mut args, self.log_format.as_str());
        if self.systemd_cgroup {
            push_text(&mut args, "--systemd-cgroup");
        }
        if let Some(rootless) = self.rootless {
            if rootless {
                push_text(&mut args, "--rootless=true");
            } else {
                push_text(&mut args, "--rootless=false");
            }
        }
        args
    }
}

/// A configuration under construction. Each setter returns the configuration
/// with one entry replaced, so that calls can be chained.
#[derive(Debug, Clone)]
pub struct RuncConfig {
    command: Option<String>,
    root: Option<String>,
    debug: bool,
    log: Option<String>,
    log_format: Option<LogFormat>,
    systemd_cgroup: bool,
    rootless: Option<bool>,
    set_pgid: bool,
    timeout: Option<u64>,
}

impl View for RuncConfig {
    type V = ConfigView;

    closed spec fn view(&self) -> ConfigView {
        ConfigView {
            command: opt_text(self.command),
            root: opt_text(self.root),
            debug: self.debug,
            log: opt_text(self.log),
            log_format: self.log_format,
            systemd_cgroup: self.systemd_cgroup,
            rootless: self.rootless,
            set_pgid: self.set_pgid,
            timeout: self.timeout,
        }
    }
}

impl Default for RuncConfig {
    fn default() -> (r: Self)
        ensures
            r@ == ConfigView::unset(),
    {
        RuncConfig {
            command: None,
            root: None,
            debug: false,
            log: None,
            log_format: None,
            systemd_cgroup: false,
            rootless: None,
            set_pgid: false,
            timeout: None,
        }
    }
}

impl RuncConfig {
    /// A configuration in which nothing is set.
    pub fn new() -> (r: Self)
        ensures
            r@ == ConfigView::unset(),
    {
        RuncConfig {
            command: None,
            root: None,
            debug: false,
            log: None,
            log_format: None,
            systemd_cgroup: false,
            rootless: None,
            set_pgid: false,
            timeout: None,
        }
    }

    /// Sets the path of the binary to run.
    pub fn command(self, command: &str) -> (r: Self)
        ensures
            r@ == (ConfigView { command: Some(command@), ..self@ }),
    {
        let mut next = self;
        next.command = Some(String::from_str(command));
        next
    }

    /// Sets the root directory of the runtime's state.
    pub fn root(self, root: &str) -> (r: Self)
        ensures
            r@ == (ConfigView { root: Some(root@), ..self@ }),
    {
        let mut next = self;
        next.root = Some(String::from_str(root));
        next
    }

    /// Switches debug output on or off.
    pub fn debug(self, debug: bool) -> (r: Self)
        ensures
            r@ == (ConfigView { debug: debug, ..self@ }),
    {
        let mut next = self;
        next.debug = debug;
        next
    }

    /// Sets the path of the log file.
    pub fn log(self, log: &str) -> (r: Self)
        ensures
            r@ == (ConfigView { log: Some(log@), ..self@ }),
    {
        let mut next = self;
        next.log = Some(String::from_str(log));
        next
    }

    /// Sets the format of the log.
    pub fn log_format(self, log_format: LogFormat) -> (r: Self)
        ensures
            r@ == (ConfigView { log_format: Some(log_format), ..self@ }),
    {
        let mut next = self;
        next.log_format = Some(log_format);
        next
    }

    /// Sets the format of the log to JSON.
    pub fn log_format_json(self) -> (r: Self)
        ensures
            r@ == (ConfigView { log_format: Some(LogFormat::Json), ..self@ }),
    {
        let mut next = self;
        next.log_format = Some(LogFormat::Json);
        next
    }

    /// Sets the format of the log to plain text.
    pub fn log_format_text(self) -> (r: Self)
        ensures
            r@ == (ConfigView { log_format: Some(LogFormat::Text), ..self@ }),
    {
        let mut next = self;
        next.log_format = Some(LogFormat::Text);
        next
    }

    /// Switches the systemd cgroup driver on or off.
    pub fn systemd_cgroup(self, systemd_cgroup: bool) -> (r: Self)
        ensures
            r@ == (ConfigView { systemd_cgroup: systemd_cgroup, ..self@ }),
    {
        let mut next = self;
        next.systemd_cgroup = systemd_cgroup;
        next
    }

    /// Fixes the rootless setting, which is then passed on explicitly.
    pub fn rootless(self, rootless: bool) -> (r: Self)
        ensures
            r@ == (ConfigView { rootless: Some(rootless), ..self@ }),
    {
        let mut next = self;
        next.rootless = Some(rootless);
        next
    }

    /// Makes the binary run in a process group of its own, or not.
    pub fn set_pgid(self, set_pgid: bool) -> (r: Self)
        ensures
            r@ == (ConfigView { set_pgid: set_pgid, ..self@ }),
    {
        let mut next = self;
        next.set_pgid = set_pgid;
        next
    }

    /// Leaves the rootless setting to the binary: no flag is passed for it.
    pub fn rootless_auto(self) -> (r: Self)
        ensures
            r@ == (ConfigView { rootless: None, ..self@ }),
    {
        let mut next = self;
        next.rootless = None;
        next
    }

    /// Sets the time granted to an invocation, in milliseconds.
    pub fn timeout(self, millis: u64) -> (r: Self)
        ensures
            r@ == (ConfigView { timeout: Some(millis), ..self@ }),
    {
        let mut next = self;
        next.timeout = Some(millis);
        next
    }

    /// The settings that this configuration stands for, defaults filled in.
    pub fn into_runc(self) -> (r: Runc)
        ensures
            r@ == self@.built(),
    {
        Runc {
            command: match self.command {
                Some(command) => command,
                None => String::from_str(DEFAULT_COMMAND),
            },
            root: self.root,
            debug: self.debug,
            log: self.log,
            log_format: match self.log_format {
                Some(format) => format,
                None => LogFormat::Text,
            },
            systemd_cgroup: self.systemd_cgroup,
            rootless: self.rootless,
            set_pgid: self.set_pgid,
            timeout: match self.timeout {
                Some(millis) => millis,
                None => DEFAULT_TIMEOUT_MS,
            },
        }
    }
}

} // verus!
