//! Invocation, stream plumbing and process registry of a container-runtime shim.
//!
//! The crate decides and the caller acts: every function here maps plain
//! values to plain values, so that spawning the runtime binary, opening
//! pipes and delivering signals stay with the program that embeds it.
//!
//! - [`config`], [`options`], [`verbs`] and [`client`] turn a lifecycle verb
//!   into the argument vector of one invocation of the runtime binary;
//!   [`invoke`] turns what the invocation produced into a typed result.
//! - [`pipe`], [`io`] and [`setup`] keep the pipes behind a process's
//!   standard streams, track who owns each of their ends, and lead through
//!   their opening.
//! - [`process`] and [`container`] keep the registry of a container's
//!   processes and their lifecycle.

pub mod client;
pub mod config;
pub mod container;
pub mod error;
pub mod invoke;
pub mod io;
pub mod options;
pub mod pipe;
pub mod process;
pub mod setup;
pub mod text;
pub mod verbs;

pub use client::{RuncAsyncClient, RuncClient};
pub use config::{LogFormat, Runc, RuncConfig};
pub use container::{Container, DeleteRequest, KillRequest, StartRequest};
pub use error::{Error, ExitStatus};
pub use invoke::{Invocation, Outcome, RuncResponse, Version};
pub use io::{IOOption, RuncIO, RuncPipedIO, Wiring};
pub use options::{CreateOpts, DeleteOpts, ExecOpts, KillOpts};
pub use pipe::{EndState, Pipe, Stream};
pub use process::{Delivery, InitProcess, ProcessState, Timestamp};
pub use setup::{IoSetup, IoStep, Phase};
