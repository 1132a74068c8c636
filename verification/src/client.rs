//! The clients through which invocations are planned: one for callers that
//! block while the binary runs, one for callers that wait under a timeout.

use vstd::prelude::*;
use vstd::string::*;
use crate::config::{Runc, RuncConfig, RuncView};
use crate::error::Error;
use crate::invoke::{Invocation, InvocationView};
use crate::options::{CreateOpts, DeleteOpts, ExecOpts, KillOpts};
use crate::text::{push_texts, texts};
use crate::verbs::{
    command_args, create_args, delete_args, exec_args, kill_args, list_args, pause_args, ps_args,
    resume_args, run_args, start_args, state_args, stats_args, update_args,
};

verus! {

/// The invocation of the configured binary with `args`, waited for without
/// a limit.
pub open spec fn planned(
    c: RuncView,
    args: Seq<Seq<char>>,
    combined_output: bool,
) -> InvocationView {
    InvocationView {
        program: c.command,
        args: args,
        combined_output: combined_output,
        timeout: None,
    }
}

/// The invocation of the configured binary with `args`, waited for no longer
/// than the configured timeout.
pub open spec fn planned_with_timeout(
    c: RuncView,
    args: Seq<Seq<char>>,
    combined_output: bool,
) -> InvocationView {
    InvocationView {
        program: c.command,
        args: args,
        combined_output: combined_output,
        timeout: Some(c.timeout),
    }
}

impl RuncConfig {
    /// Builds the client that blocks while the binary runs.
    pub fn build(self) -> (r: Result<RuncClient, Error>)
        ensures
            r matches Ok(client) && client@ == self@.built(),
    {
        Ok(RuncClient(self.into_runc()))
    }

    /// Builds the client that waits under the configured timeout.
    pub fn build_async(self) -> (r: Result<RuncAsyncClient, Error>)
        ensures
            r matches Ok(client) && client@ == self@.built(),
    {
        Ok(RuncAsyncClient(self.into_runc()))
    }
}

/// Plans invocations for a caller that blocks until the binary has ended.
#[derive(Debug, Clone)]
pub struct RuncClient(Runc);

impl View for RuncClient {
    type V = RuncView;

    closed spec fn view(&self) -> RuncView {
        self.0@
    }
}

impl RuncClient {
    /// A client for the settings that `config` stands for.
    pub fn from_config(config: RuncConfig) -> (r: Result<Self, Error>)
        ensures
            r matches Ok(client) && client@ == config@.built(),
    {
        Ok(RuncClient(config.into_runc()))
    }

    /// The settings of this client.
    pub fn settings(&self) -> (r: &Runc)
        ensures
            r@ == self@,
    {
        &self.0
    }

    fn plan(&self, args: Vec<String>, combined_output: bool) -> (r: Invocation)
        ensures
            r@ == planned(self@, texts(args@), combined_output),
    {
        Invocation {
            program: String::from_str(self.0.command()),
            args,
            combined_output,
            timeout: None,
        }
    }

    /// The invocation with exactly the arguments `args`: the flags that the
    /// settings stand for are left out.
    pub fn command_raw(&self, args: &[String], combined_output: bool) -> (r: Invocation)
        ensures
            r@ == planned(self@, texts(args@), combined_output),
    {
        let mut all: Vec<String> = Vec::new();
        push_texts(&mut all, args);
        self.plan(all, combined_output)
    }

    /// The invocation with the arguments `args` behind the global flags.
    pub fn command(&self, args: &[String], combined_output: bool) -> (r: Invocation)
        ensures
            r@ == planned(self@, command_args(self@, texts(args@)), combined_output),
    {
        self.plan(self.0.command_args(args), combined_output)
    }

    /// Checkpointing is not provided.
    pub fn checkpoint(&self) -> (r: Result<(), Error>)
        ensures
            r matches Err(Error::UnimplementedError(verb)) && verb@ == "checkpoint"@,
    {
        Err(Error::UnimplementedError(String::from_str("checkpoint")))
    }

    /// The invocation that creates the container `id` from `bundle`.
    pub fn create(&self, id: &str, bundle: &str, opts: Option<&CreateOpts>) -> (r: Invocation)
        ensures
            r@ == planned(self@, create_args(self@, id@, bundle@, opts), true),
    {
        self.plan(self.0.create_args(id, bundle, opts), true)
    }

    /// The invocation that deletes the container `id`.
    pub fn delete(&self, id: &str, opts: Option<&DeleteOpts>) -> (r: Invocation)
        ensures
            r@ == planned(self@, delete_args(self@, id@, opts), true),
    {
        self.plan(self.0.delete_args(id, opts), true)
    }

    /// A stream of container events is not provided.
    pub fn events(&self, id: &str, interval: &std::time::Duration) -> (r: Result<(), Error>)
        ensures
            r matches Err(Error::UnimplementedError(verb)) && verb@ == "events"@,
    {
        Err(Error::UnimplementedError(String::from_str("events")))
    }

    /// The invocation that runs a further process in the container `id`. The
    /// process is described in the file `process_file`, which the caller has
    /// written and keeps until the invocation has ended.
    pub fn exec(&self, id: &str, process_file: &str, opts: Option<&ExecOpts>) -> (r: Invocation)
        ensures
            r@ == planned(self@, exec_args(self@, id@, process_file@, opts), true),
    {
        self.plan(self.0.exec_args(id, process_file, opts), true)
    }

    /// The invocation that sends signal `sig` to the container `id`.
    pub fn kill(&self, id: &str, sig: u32, opts: Option<&KillOpts>) -> (r: Invocation)
        ensures
            r@ == planned(self@, kill_args(self@, id@, sig, opts), true),
    {
        self.plan(self.0.kill_args(id, sig, opts), true)
    }

    /// The invocation that lists the containers. Its output is decoded with
    /// `list_payload`.
    pub fn list(&self) -> (r: Invocation)
        ensures
            r@ == planned(self@, list_args(self@), false),
    {
        self.plan(self.0.list_args(), false)
    }

    /// The invocation that suspends the container `id`.
    pub fn pause(&self, id: &str) -> (r: Invocation)
        ensures
            r@ == planned(self@, pause_args(self@, id@), true),
    {
        self.plan(self.0.pause_args(id), true)
    }

    /// The invocation that lists the processes of the container `id`. Its
    /// output is decoded with `parse_pids`.
    pub fn ps(&self, id: &str) -> (r: Invocation)
        ensures
            r@ == planned(self@, ps_args(self@, id@), false),
    {
        self.plan(self.0.ps_args(id), false)
    }

    /// Restoring is not provided.
    pub fn restore(&self) -> (r: Result<(), Error>)
        ensures
            r matches Err(Error::UnimplementedError(verb)) && verb@ == "restore"@,
    {
        Err(Error::UnimplementedError(String::from_str("restore")))
    }

    /// The invocation that lets the suspended container `id` go on.
    pub fn resume(&self, id: &str) -> (r: Invocation)
        ensures
            r@ == planned(self@, resume_args(self@, id@), true),
    {
        self.plan(self.0.resume_args(id), true)
    }

    /// The invocation that creates, starts and deletes the container `id` in
    /// one go.
    pub fn run(&self, id: &str, bundle: &str, opts: Option<&CreateOpts>) -> (r: Invocation)
        ensures
            r@ == planned(self@, run_args(self@, id@, bundle@, opts), true),
    {
        self.plan(self.0.run_args(id, bundle, opts), true)
    }

    /// The invocation that starts the container `id`.
    pub fn start(&self, id: &str) -> (r: Invocation)
        ensures
            r@ == planned(self@, start_args(self@, id@), true),
    {
        self.plan(self.0.start_args(id), true)
    }

    /// The invocation that queries the state of the container `id`. Its
    /// output is decoded with `parse_state`.
    pub fn state(&self, id: &str) -> (r: Invocation)
        ensures
            r@ == planned(self@, state_args(self@, id@), true),
    {
        self.plan(self.0.state_args(id), true)
    }

    /// The invocation that queries the statistics of the container `id`. The
    /// event it reports must carry them: see `require_stats`.
    pub fn stats(&self, id: &str) -> (r: Invocation)
        ensures
            r@ == planned(self@, stats_args(self@, id@), true),
    {
        self.plan(self.0.stats_args(id), true)
    }

    /// The invocation that applies resource limits to the container `id`. The
    /// limits are in the file `resources_file`, which the caller has written
    /// and keeps until the invocation has ended.
    pub fn update(&self, id: &str, resources_file: &str) -> (r: Invocation)
        ensures
            r@ == planned(self@, update_args(self@, id@, resources_file@), true),
    {
        self.plan(self.0.update_args(id, resources_file), true)
    }
}

/// Plans invocations for a caller that suspends while the binary runs and
/// gives up once the configured timeout has passed.
#[derive(Debug, Clone)]
pub struct RuncAsyncClient(Runc);

impl View for RuncAsyncClient {
    type V = RuncView;

    closed spec fn view(&self) -> RuncView {
        self.0@
    }
}

impl RuncAsyncClient {
    /// A client for the settings that `config` stands for.
    pub fn from_config(config: RuncConfig) -> (r: Result<Self, Error>)
        ensures
            r matches Ok(client) && client@ == config@.built(),
    {
        Ok(RuncAsyncClient(config.into_runc()))
    }

    /// The settings of this client.
    pub fn settings(&self) -> (r: &Runc)
        ensures
            r@ == self@,
    {
        &self.0
    }

    fn plan(&self, args: Vec<String>, combined_output: bool) -> (r: Invocation)
        ensures
            r@ == planned_with_timeout(self@, texts(args@), combined_output),
    {
        Invocation {
            program: String::from_str(self.0.command()),
            args,
            combined_output,
            timeout: Some(self.0.timeout()),
        }
    }

    /// The invocation with the arguments `args` behind the global flags.
    pub fn command(&self, args: &[String], combined_output: bool) -> (r: Invocation)
        ensures
            r@ == planned_with_timeout(self@, command_args(self@, texts(args@)), combined_output),
    {
        self.plan(self.0.command_args(args), combined_output)
    }

    /// Checkpointing is not provided.
    pub fn checkpoint(&self) -> (r: Result<(), Error>)
        ensures
            r matches Err(Error::UnimplementedError(verb)) && verb@ == "checkpoint"@,
    {
        Err(Error::UnimplementedError(String::from_str("checkpoint")))
    }

    /// The invocation that creates the container `id` from `bundle`.
    pub fn create(&self, id: &str, bundle: &str, opts: Option<&CreateOpts>) -> (r: Invocation)
        ensures
            r@ == planned_with_timeout(self@, create_args(self@, id@, bundle@, opts), true),
    {
        self.plan(self.0.create_args(id, bundle, opts), true)
    }

    /// The invocation that deletes the container `id`.
    pub fn delete(&self, id: &str, opts: Option<&DeleteOpts>) -> (r: Invocation)
        ensures
            r@ == planned_with_timeout(self@, delete_args(self@, id@, opts), true),
    {
        self.plan(self.0.delete_args(id, opts), true)
    }

    /// A stream of container events is not provided.
    pub fn events(&self, id: &str, interval: &std::time::Duration) -> (r: Result<(), Error>)
        ensures
            r matches Err(Error::UnimplementedError(verb)) && verb@ == "events"@,
    {
        Err(Error::UnimplementedError(String::from_str("events")))
    }

    /// The invocation that runs a further process in the container `id`. The
    /// process is described in the file `process_file`, which the caller has
    /// written and keeps until the invocation has ended.
    pub fn exec(&self, id: &str, process_file: &str, opts: Option<&ExecOpts>) -> (r: Invocation)
        ensures
            r@ == planned_with_timeout(self@, exec_args(self@, id@, process_file@, opts), true),
    {
        self.plan(self.0.exec_args(id, process_file, opts), true)
    }

    /// The invocation that sends signal `sig` to the container `id`.
    pub fn kill(&self, id: &str, sig: u32, opts: Option<&KillOpts>) -> (r: Invocation)
        ensures
            r@ == planned_with_timeout(self@, kill_args(self@, id@, sig, opts), true),
    {
        self.plan(self.0.kill_args(id, sig, opts), true)
    }

    /// The invocation that lists the containers. Its output is decoded with
    /// `list_payload`.
    pub fn list(&self) -> (r: Invocation)
        ensures
            r@ == planned_with_timeout(self@, list_args(self@), false),
    {
        self.plan(self.0.list_args(), false)
    }

    /// The invocation that suspends the container `id`.
    pub fn pause(&self, id: &str) -> (r: Invocation)
        ensures
            r@ == planned_with_timeout(self@, pause_args(self@, id@), true),
    {
        self.plan(self.0.pause_args(id), true)
    }

    /// The invocation that lists the processes of the container `id`. Its
    /// output is decoded with `parse_pids`.
    pub fn ps(&self, id: &str) -> (r: Invocation)
        ensures
            r@ == planned_with_timeout(self@, ps_args(self@, id@), false),
    {
        self.plan(self.0.ps_args(id), false)
    }

    /// Restoring is not provided.
    pub fn restore(&self) -> (r: Result<(), Error>)
        ensures
            r matches Err(Error::UnimplementedError(verb)) && verb@ == "restore"@,
    {
        Err(Error::UnimplementedError(String::from_str("restore")))
    }

    /// The invocation that lets the suspended container `id` go on.
    pub fn resume(&self, id: &str) -> (r: Invocation)
        ensures
            r@ == planned_with_timeout(self@, resume_args(self@, id@), true),
    {
        self.plan(self.0.resume_args(id), true)
    }

    /// The invocation that creates, starts and deletes the container `id` in
    /// one go.
    pub fn run(&self, id: &str, bundle: &str, opts: Option<&CreateOpts>) -> (r: Invocation)
        ensures
            r@ == planned_with_timeout(self@, run_args(self@, id@, bundle@, opts), true),
    {
        self.plan(self.0.run_args(id, bundle, opts), true)
    }

    /// The invocation that starts the container `id`.
    pub fn start(&self, id: &str) -> (r: Invocation)
        ensures
            r@ == planned_with_timeout(self@, start_args(self@, id@), true),
    {
        self.plan(self.0.start_args(id), true)
    }

    /// The invocation that queries the state of the container `id`. Its
    /// output is decoded with `parse_state`.
    pub fn state(&self, id: &str) -> (r: Invocation)
        ensures
            r@ == planned_with_timeout(self@, state_args(self@, id@), true),
    {
        self.plan(self.0.state_args(id), true)
    }

    /// The invocation that queries the statistics of the container `id`. The
    /// event it reports must carry them: see `require_stats`.
    pub fn stats(&self, id: &str) -> (r: Invocation)
        ensures
            r@ == planned_with_timeout(self@, stats_args(self@, id@), true),
    {
        self.plan(self.0.stats_args(id), true)
    }

    /// The invocation that applies resource limits to the container `id`. The
    /// limits are in the file `resources_file`, which the caller has written
    /// and keeps until the invocation has ended.
    pub fn update(&self, id: &str, resources_file: &str) -> (r: Invocation)
        ensures
            r@ == planned_with_timeout(self@, update_args(self@, id@, resources_file@), true),
    {
        self.plan(self.0.update_args(id, resources_file), true)
    }
}

} // verus!
