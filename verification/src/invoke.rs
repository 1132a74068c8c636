//! One invocation of the runtime binary: what is to be run, what running it
//! produced, and the result that this amounts to.

use vstd::prelude::*;
use vstd::string::*;
use crate::error::{Error, ExitStatus};
use crate::text::{same_text, texts, trim, trimmed};

verus! {

/// The result of an invocation that succeeded.
#[derive(Debug, Clone)]
pub struct RuncResponse {
    /// The id of the process that ran.
    pub pid: u32,
    /// The status with which it ended.
    pub status: ExitStatus,
    /// What it wrote: its standard output, followed by its standard error
    /// where the invocation asked for both.
    pub output: String,
}

/// The versions that the runtime binary reports of itself.
#[derive(Debug, Clone)]
pub struct Version {
    pub runc_version: Option<String>,
    pub spec_version: Option<String>,
    pub commit: Option<String>,
}

/// An invocation that is ready to be carried out: the binary is started with
/// exactly these arguments, without standard input, and with both output
/// streams captured.
#[derive(Debug, Clone)]
pub struct Invocation {
    /// The path of the binary.
    pub program: String,
    /// The arguments, in order.
    pub args: Vec<String>,
    /// Whether a successful result holds standard error after standard output.
    pub combined_output: bool,
    /// The time in milliseconds after which waiting is given up; without it
    /// the wait is unbounded. Whoever gives the wait up kills the binary, so
    /// that none is left running behind a result that says it timed out.
    pub timeout: Option<u64>,
}

/// What carrying out an invocation produced.
#[derive(Debug)]
pub enum Outcome {
    /// The binary could not be started.
    SpawnFailed(std::io::Error),
    /// The binary was started, but waiting for it failed.
    WaitFailed(std::io::Error),
    /// The binary did not end within the time granted.
    TimedOut,
    /// The binary ran and ended.
    Exited { pid: u32, status: ExitStatus, stdout: String, stderr: String },
}

/// The output that a successful invocation reports.
pub open spec fn reported_output(stdout: Seq<char>, stderr: Seq<char>, combined: bool) -> Seq<
    char,
> {
    if combined {
        stdout + stderr
    } else {
        stdout
    }
}

/// Whether `r` is the result that `outcome` amounts to: a response exactly
/// for an exit with code zero, and otherwise the error that tells a binary
/// that failed from one that never ran or never finished. A failure carries
/// both streams as they were captured, whatever `combined` asks for.
pub open spec fn is_response_to(
    r: Result<RuncResponse, Error>,
    outcome: Outcome,
    combined: bool,
) -> bool {
    match outcome {
        Outcome::SpawnFailed(cause) => r matches Err(Error::ProcessSpawnError(e)) && e == cause,
        Outcome::WaitFailed(cause) => r matches Err(Error::CommandError(e)) && e == cause,
        Outcome::TimedOut => r matches Err(Error::CommandTimeoutError),
        Outcome::Exited { pid, status, stdout, stderr } => if status.is_success() {
            r matches Ok(response) && response.pid == pid && response.status == status
                && response.output@ == reported_output(stdout@, stderr@, combined)
        } else {
            r matches Err(Error::CommandFaliedError { status: s, stdout: out, stderr: err })
                && s == status && out@ == stdout@ && err@ == stderr@
        },
    }
}

/// An invocation succeeds exactly when the binary ran and left with code
/// zero, and fails as a failed command exactly when it ran and ended
/// otherwise: no result holds part of a success beside a failure.
pub proof fn lemma_success_iff_zero_exit(
    r: Result<RuncResponse, Error>,
    outcome: Outcome,
    combined: bool,
)
    requires
        is_response_to(r, outcome, combined),
    ensures
        r is Ok <==> (outcome matches Outcome::Exited { status, .. } && status
            == ExitStatus::Exited(0)),
        r is Err && r->Err_0 is CommandFaliedError <==> (outcome matches Outcome::Exited {
            status,
            ..
        } && status != ExitStatus::Exited(0)),
{
}

/// Whether `r` is the output, or the error, that `outcome` amounts to: as
/// `is_response_to`, with a response cut down to what was written.
pub open spec fn is_output_of(r: Result<String, Error>, outcome: Outcome, combined: bool) -> bool {
    match r {
        Ok(output) => outcome matches Outcome::Exited { pid, status, stdout, stderr }
            && status.is_success() && output@ == reported_output(stdout@, stderr@, combined),
        Err(e) => is_response_to(Err(e), outcome, combined),
    }
}

/// A caller that takes the output alone is told of success and failure
/// exactly as one that takes the whole response.
pub proof fn lemma_output_agrees_with_response(
    r: Result<RuncResponse, Error>,
    outcome: Outcome,
    combined: bool,
)
    requires
        is_response_to(r, outcome, combined),
    ensures
        is_output_of(
            match r {
                Ok(response) => Ok(response.output),
                Err(e) => Err(e),
            },
            outcome,
            combined,
        ),
{
}

/// What an invocation holds.
pub struct InvocationView {
    pub program: Seq<char>,
    pub args: Seq<Seq<char>>,
    pub combined_output: bool,
    pub timeout: Option<u64>,
}

impl View for Invocation {
    type V = InvocationView;

    open spec fn view(&self) -> InvocationView {
        InvocationView {
            program: self.program@,
            args: texts(self.args@),
            combined_output: self.combined_output,
            timeout: self.timeout,
        }
    }
}

impl Invocation {
    /// The result that `outcome` amounts to for this invocation.
    pub fn response(&self, outcome: Outcome) -> (r: Result<RuncResponse, Error>)
        ensures
            is_response_to(r, outcome, self.combined_output),
    {
        respond(outcome, self.combined_output)
    }

    /// The output that `outcome` amounts to for this invocation, for callers
    /// that need neither process id nor status.
    pub fn output(&self, outcome: Outcome) -> (r: Result<String, Error>)
        ensures
            is_output_of(r, outcome, self.combined_output),
    {
        match respond(outcome, self.combined_output) {
            Ok(response) => Ok(response.output),
            Err(e) => Err(e),
        }
    }
}

/// The result that `outcome` amounts to.
pub fn respond(outcome: Outcome, combined_output: bool) -> (r: Result<RuncResponse, Error>)
    ensures
        is_response_to(r, outcome, combined_output),
{
    match outcome {
        Outcome::SpawnFailed(cause) => Err(Error::ProcessSpawnError(cause)),
        Outcome::WaitFailed(cause) => Err(Error::CommandError(cause)),
        Outcome::TimedOut => Err(Error::CommandTimeoutError),
        Outcome::Exited { pid, status, stdout, stderr } => {
            if status.success() {
                let output = if combined_output {
                    stdout.concat(stderr.as_str())
                } else {
                    stdout
                };
                Ok(RuncResponse { pid, status, output })
            } else {
                Err(Error::CommandFaliedError { status, stdout, stderr })
            }
        },
    }
}

/// What came of writing the document that an invocation is to read: the
/// value that stands for the written file, or the failure to create it.
pub fn written<T>(outcome: Result<T, std::io::Error>) -> (r: Result<T, Error>)
    ensures
        match outcome {
            Ok(file) => r matches Ok(f) && f == file,
            Err(cause) => r matches Err(Error::SpecFileCreationError(e)) && e == cause,
        },
{
    match outcome {
        Ok(file) => Ok(file),
        Err(cause) => Err(Error::SpecFileCreationError(cause)),
    }
}

/// Names the outcome of `serde_json::from_str::<Vec<usize>>` on `text`: the
/// numbers of the JSON array that the text holds, or the decoder's message
/// where the text is no such array.
pub uninterp spec fn json_usize_list(text: Seq<char>) -> Result<Seq<usize>, Seq<char>>;

/// Wraps `serde_json::from_str` at `Vec<usize>`, with the decoder's error
/// turned into its message. The outcome depends on the text alone.
#[verifier::external_body]
fn parse_usize_list(text: &str) -> (r: Result<Vec<usize>, String>)
    ensures
        json_usize_list(text@) == (match r {
            Ok(list) => Ok::<Seq<usize>, Seq<char>>(list@),
            Err(message) => Err::<Seq<usize>, Seq<char>>(message@),
        }),
{
    match serde_json::from_str::<Vec<usize>>(text) {
        Ok(list) => Ok(list),
        Err(e) => Err(e.to_string()),
    }
}

/// Whether `r` is `decoded` with its message wrapped as a decode failure.
pub open spec fn is_decoded(
    r: Result<Vec<usize>, Error>,
    decoded: Result<Seq<usize>, Seq<char>>,
) -> bool {
    match decoded {
        Ok(list) => r matches Ok(v) && v@ == list,
        Err(message) => r matches Err(Error::JsonDeserializationError(m)) && m@ == message,
    }
}

/// Turns what a decoder made of captured output into a result of this
/// library: the value itself, or a decode failure with the decoder's message.
pub fn decoded<T>(parsed: Result<T, String>) -> (r: Result<T, Error>)
    ensures
        match parsed {
            Ok(value) => r matches Ok(v) && v == value,
            Err(message) => r matches Err(Error::JsonDeserializationError(m)) && m == message,
        },
{
    match parsed {
        Ok(value) => Ok(value),
        Err(message) => Err(Error::JsonDeserializationError(message)),
    }
}

/// What a listing stands for, given what the decoder makes of its trimmed
/// text: nothing where the text is the literal `null`, with which the binary
/// reports an empty collection, and the decoder's outcome otherwise.
pub open spec fn listing(text: Seq<char>, parsed: Result<Seq<usize>, Seq<char>>) -> Result<
    Seq<usize>,
    Seq<char>,
> {
    if trimmed(text) == "null"@ {
        Ok(Seq::empty())
    } else {
        parsed
    }
}

/// Decodes the process ids that the output of a process listing holds.
/// Output that is `null` but for surrounding whitespace stands for no
/// process at all, and is no decode failure.
pub fn parse_pids(output: &str) -> (r: Result<Vec<usize>, Error>)
    ensures
        is_decoded(r, listing(output@, json_usize_list(trimmed(output@)))),
        trimmed(output@) == "null"@ ==> (r matches Ok(v) && v@.len() == 0),
{
    let r = match list_payload(output) {
        Some(text) => listed(Some(parse_usize_list(text))),
        None => listed(None),
    };
    proof {
        if trimmed(output@) == "null"@ {
            assert(r->Ok_0@ =~= Seq::empty());
        }
    }
    r
}

/// Decodes the output of a state query, which is taken as it is.
pub fn parse_state(output: &str) -> (r: Result<Vec<usize>, Error>)
    ensures
        is_decoded(r, json_usize_list(output@)),
{
    decoded(parse_usize_list(output))
}

/// The text of a container listing that is left to decode: none where the
/// output is `null` but for surrounding whitespace, which stands for an empty
/// collection, and the trimmed output otherwise.
pub fn list_payload(output: &str) -> (r: Option<&str>)
    ensures
        match r {
            Some(text) => text@ == trimmed(output@) && text@ != "null"@,
            None => trimmed(output@) == "null"@,
        },
{
    let text = trim(output);
    if same_text(text, "null") {
        None
    } else {
        Some(text)
    }
}

/// The collection that a listing stands for, given what a decoder made of
/// its payload: the empty one where there was no payload to decode, and else
/// the decoder's, or a decode failure with the decoder's message.
pub fn listed<T>(parsed: Option<Result<Vec<T>, String>>) -> (r: Result<Vec<T>, Error>)
    ensures
        match parsed {
            Some(Ok(list)) => r matches Ok(v) && v == list,
            Some(Err(message)) => r matches Err(Error::JsonDeserializationError(m)) && m
                == message,
            None => r matches Ok(v) && v@.len() == 0,
        },
{
    match parsed {
        Some(parsed) => decoded(parsed),
        None => Ok(Vec::new()),
    }
}

/// The statistics of an event, which a statistics query must carry.
pub fn require_stats<T>(stats: Option<T>) -> (r: Result<T, Error>)
    ensures
        match stats {
            Some(value) => r matches Ok(v) && v == value,
            None => r matches Err(Error::MissingContainerStatsError),
        },
{
    match stats {
        Some(value) => Ok(value),
        None => Err(Error::MissingContainerStatsError),
    }
}

} // verus!
