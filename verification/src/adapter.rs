//! The process adapter: the verified half of one external-tool invocation.
//!
//! The adapter owns two decisions. Before the tool runs, it builds the
//! argument list from a [`CheckRequest`]. After the process boundary has been
//! crossed, it normalizes what happened there — captured streams and exit
//! status, or a failure to start at all — into either a [`CheckResult`] or an
//! [`InfrastructureError`]. The spawn itself is I/O and stays with the
//! caller, which reports back through a [`ToolOutcome`].

use vstd::prelude::*;

use crate::json::{json_error_message, json_of, parse_json};

verus! {

/// One request to check a URL: the target itself and an optional
/// configuration reference, passed through to the tool verbatim.
pub struct CheckRequest {
    pub url: String,
    pub config: Option<String>,
}

/// What the external tool reported when it ran: either parsed output data,
/// or its own diagnostic text. Exactly one of the two is ever present.
pub enum CheckResult {
    Success { data: serde_json::Value },
    Failure { message: String },
}

/// A failure to converse with the external tool at all, as opposed to the
/// tool running and reporting a problem itself.
pub enum InfrastructureError {
    /// The working directory could not be determined, so the tool could not
    /// be located.
    EnvironmentUnavailable { detail: String },
    /// The tool could not be started (missing executable, permissions, ...).
    SpawnFailed { detail: String },
    /// The tool exited successfully but its output was not well-formed JSON.
    OutputMalformed { detail: String },
}

/// What happened at the process boundary, reported by the unverified caller
/// that performed the spawn.
pub enum ToolOutcome {
    /// The environment gave no working directory to resolve the tool from.
    EnvironmentFailed { detail: String },
    /// The process could not be started.
    NotSpawned { detail: String },
    /// The process ran to completion with the captured streams.
    Exited { success: bool, stdout: Vec<u8>, stderr: Vec<u8> },
}

/// The argument list handed to the external tool: the URL as a positional
/// argument, the flag that requests JSON output, and — only when a
/// configuration reference was supplied — `--config` with that reference.
pub open spec fn spec_args(url: Seq<char>, config: Option<Seq<char>>) -> Seq<Seq<char>> {
    match config {
        Some(c) => seq![url, "--json"@, "--config"@, c],
        None => seq![url, "--json"@],
    }
}

impl CheckRequest {
    /// Packs a target URL and an optional configuration reference.
    pub fn new(url: String, config: Option<String>) -> (r: CheckRequest)
        ensures
            r.url == url,
            r.config == config,
    {
        CheckRequest { url, config }
    }

    /// Builds the tool's argument list for this request.
    pub fn tool_args(&self) -> (r: Vec<String>)
        ensures
            r.deep_view() == spec_args(self.url@, self.config.deep_view()),
    {
        let mut v: Vec<String> = Vec::new();
        v.push(self.url.clone());
        v.push("--json".to_owned());
        match &self.config {
            Some(c) => {
                v.push("--config".to_owned());
                v.push(c.clone());
            },
            None => {},
        }
        proof {
            assert(v.deep_view() =~~= spec_args(self.url@, self.config.deep_view()));
        }
        v
    }
}

/// The configuration flag never appears unasked, and always in its place:
/// with a configuration reference supplied, the argument list is exactly the
/// URL, `--json`, `--config`, and the reference, so the `--config` pair
/// stands directly after `--json`; with none supplied, the list is exactly
/// the URL and `--json`, and no token after the positional URL is
/// `--config`.
pub proof fn lemma_config_flag_placement(url: Seq<char>, config: Option<Seq<char>>)
    ensures
        (config matches Some(c) ==> spec_args(url, config) == seq![
            url,
            "--json"@,
            "--config"@,
            c,
        ]),
        (config is None ==> spec_args(url, config) == seq![url, "--json"@]),
        (config is None ==> forall|i: int|
            1 <= i < spec_args(url, config).len() ==> spec_args(url, config)[i] != "--config"@),
{
    reveal_strlit("--json");
    reveal_strlit("--config");
    assert("--json"@.len() == 6);
    assert("--config"@.len() == 8);
}

/// What `String::from_utf8_lossy` makes of a byte sequence. The decoding
/// depends on the bytes alone.
pub uninterp spec fn lossy_of(bytes: Seq<u8>) -> Seq<char>;

/// Relies on `String::from_utf8_lossy`: the decoding is a function of the
/// bytes alone, replacing invalid sequences rather than failing.
#[verifier::external_body]
fn lossy_decode(bytes: &Vec<u8>) -> (r: String)
    ensures
        r@ == lossy_of(bytes@),
{
    String::from_utf8_lossy(bytes).into_owned()
}

/// Normalizes one invocation outcome into the adapter's result.
///
/// A process that never started is an infrastructure error. A process that
/// exited with a failure status is a substantive failure carrying its
/// (leniently decoded) standard error, never an infrastructure error. A
/// process that exited successfully has its standard output parsed as JSON:
/// the parsed value on success, an infrastructure error when the output is
/// malformed.
pub fn run_check(outcome: ToolOutcome) -> (r: Result<CheckResult, InfrastructureError>)
    ensures
        (outcome matches ToolOutcome::EnvironmentFailed { detail } ==> (r matches Err(
            InfrastructureError::EnvironmentUnavailable { detail: d },
        ) && d == detail)),
        (outcome matches ToolOutcome::NotSpawned { detail } ==> (r matches Err(
            InfrastructureError::SpawnFailed { detail: d },
        ) && d == detail)),
        (outcome matches ToolOutcome::Exited { success, stdout, stderr } ==> ({
            let parsed = json_of(lossy_of(stdout@));
            if success {
                &&& parsed is Some ==> (r matches Ok(CheckResult::Success { data }) && Some(data)
                    == parsed)
                &&& parsed is None ==> (r matches Err(InfrastructureError::OutputMalformed { .. }))
            } else {
                r matches Ok(CheckResult::Failure { message }) && message@ == lossy_of(stderr@)
            }
        })),
{
    match outcome {
        ToolOutcome::EnvironmentFailed { detail } => Err(
            InfrastructureError::EnvironmentUnavailable { detail },
        ),
        ToolOutcome::NotSpawned { detail } => Err(InfrastructureError::SpawnFailed { detail }),
        ToolOutcome::Exited { success, stdout, stderr } => {
            if success {
                let text = lossy_decode(&stdout);
                match parse_json(text.as_str()) {
                    Ok(data) => Ok(CheckResult::Success { data }),
                    Err(e) => Err(
                        InfrastructureError::OutputMalformed { detail: json_error_message(&e) },
                    ),
                }
            } else {
                let message = lossy_decode(&stderr);
                Ok(CheckResult::Failure { message })
            }
        },
    }
}

} // verus!
