//! The read command: a short session of host requests and reports.
//!
//! Reading a file is carried out by the host's filesystem capability, not by
//! this library. A command is therefore a tiny protocol: the reader names a
//! request, the host performs it and reports what happened, and the reader
//! decides what comes next. The types below make the protocol's order a
//! matter of types — a read request can only be issued after the scope
//! request has been reported on — and the contracts pin down every decision.

use vstd::prelude::*;

verus! {

/// A request that the reader asks the host filesystem capability to perform.
///
/// The reader never touches the filesystem itself: it only names the work,
/// and the surrounding shell carries it out and reports back.
pub enum HostRequest {
    /// Add `path` to the host's filesystem allow-list.
    AllowFile { path: String },
    /// Read the file at `path` and decode its bytes as UTF-8 text.
    ReadTextFile { path: String },
}

/// The mathematical image of a host request: the same shape over `Seq<char>`.
pub enum HostRequestModel {
    AllowFile { path: Seq<char> },
    ReadTextFile { path: Seq<char> },
}

impl View for HostRequest {
    type V = HostRequestModel;

    open spec fn view(&self) -> HostRequestModel {
        match self {
            HostRequest::AllowFile { path } => HostRequestModel::AllowFile { path: path@ },
            HostRequest::ReadTextFile { path } => HostRequestModel::ReadTextFile { path: path@ },
        }
    }
}

/// The requests one read command issues to the host, in order: first allow
/// the path in the host's filesystem scope, then read the file. No request
/// ever asks for a removal from the scope.
pub open spec fn session_requests(path: Seq<char>) -> Seq<HostRequestModel> {
    seq![
        HostRequestModel::AllowFile { path },
        HostRequestModel::ReadTextFile { path },
    ]
}

/// A read command that has issued its scope-allow request and is waiting for
/// the host to report on it. Its view is the path being read.
pub struct ScopePending {
    path: String,
}

impl View for ScopePending {
    type V = Seq<char>;

    closed spec fn view(&self) -> Seq<char> {
        self.path@
    }
}

/// A read command whose read request has been issued and not yet answered.
/// Its view is the path being read.
pub struct ReadPending {
    path: String,
}

impl View for ReadPending {
    type V = Seq<char>;

    closed spec fn view(&self) -> Seq<char> {
        self.path@
    }
}

/// The request a command issues once the host has reported on the scope
/// request: read the pending path. The report (`granted` or not) does not
/// appear on the right-hand side — it cannot influence the request.
pub open spec fn request_after_scope(path: Seq<char>, granted: bool) -> HostRequestModel {
    session_requests(path)[1]
}

/// The model of what the host reports for a read request: the file's
/// contents decoded as UTF-8 text, or a human-readable message for the
/// failure (file missing, permission denied, bytes not valid UTF-8, ...).
pub open spec fn outcome_model(outcome: Result<String, String>) -> Result<Seq<char>, Seq<char>> {
    match outcome {
        Ok(contents) => Ok(contents@),
        Err(message) => Err(message@),
    }
}

/// The response of a read command, given the model of the host's report on
/// the read: the contents on success and the host's message on failure,
/// both passed through unchanged.
pub open spec fn session_response(
    read_outcome: Result<Seq<char>, Seq<char>>,
) -> Result<Seq<char>, Seq<char>> {
    read_outcome
}

/// Begin a read command for `path`. The returned request asks the host to
/// allow `path` in its filesystem scope; the returned state waits for the
/// host's report on that request.
pub fn start(path: String) -> (r: (ScopePending, HostRequest))
    ensures
        r.0@ == path@,
        r.1@ == session_requests(path@)[0],
{
    let request_path = path.clone();
    (ScopePending { path }, HostRequest::AllowFile { path: request_path })
}

impl ScopePending {
    /// The host has finished the scope-allow request, reporting whether the
    /// grant succeeded. The report is deliberately discarded — the read
    /// proceeds either way — and the returned request asks the host to read
    /// the pending path.
    pub fn scope_handled(self, granted: bool) -> (r: (ReadPending, HostRequest))
        ensures
            r.0@ == self@,
            r.1@ == request_after_scope(self@, granted),
    {
        let request_path = self.path.clone();
        (ReadPending { path: self.path }, HostRequest::ReadTextFile { path: request_path })
    }
}

impl ReadPending {
    /// The host has finished the read, reporting `outcome`. The command is
    /// complete; its response is the outcome, unchanged.
    pub fn read_finished(self, outcome: Result<String, String>) -> (r: Result<String, String>)
        ensures
            outcome_model(r) == session_response(outcome_model(outcome)),
    {
        outcome
    }
}

/// When the host reads the file successfully, the command responds with the
/// contents exactly as the host decoded them: no edit, no caching artifact.
pub proof fn lemma_success_passes_contents(contents: Seq<char>)
    ensures
        session_response(Ok(contents)) == Ok::<Seq<char>, Seq<char>>(contents),
{
}

/// When the host fails to read the file — it does not exist, it cannot be
/// opened, or its bytes are not valid UTF-8 — the command responds with an
/// error carrying the host's message unchanged, never with a success; the
/// message is non-empty whenever the host's was.
pub proof fn lemma_failure_passes_message(message: Seq<char>)
    ensures
        session_response(Err(message)) == Err::<Seq<char>, Seq<char>>(message),
        session_response(Err(message)) is Err,
        message.len() > 0 ==> session_response(Err(message))->Err_0.len() > 0,
{
}

/// A failed scope grant is silently ignored: whatever the host reports for
/// the allow request, the command proceeds to the same read of the same
/// path.
pub proof fn lemma_scope_report_ignored(path: Seq<char>, first_report: bool, second_report: bool)
    ensures
        request_after_scope(path, first_report) == request_after_scope(path, second_report),
{
}

/// The reader keeps no state from one command to the next: the response is
/// a function of the host's read outcome alone, so two commands for which
/// the host reports the same outcome receive identical responses.
pub proof fn lemma_same_outcome_same_response(
    first: Result<Seq<char>, Seq<char>>,
    second: Result<Seq<char>, Seq<char>>,
)
    requires
        first == second,
    ensures
        session_response(first) == session_response(second),
{
}

} // verus!
