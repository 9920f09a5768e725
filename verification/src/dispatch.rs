//! The command dispatcher: decides, from an utterance, which filesystem
//! operation to request (if any) or which fixed reply to give, and turns
//! the outcome reported back by the host's filesystem layer into the
//! user-facing reply text.  Filesystem failures are never fatal: every
//! outcome, success or failure, becomes an ordinary reply string.

use vstd::prelude::*;

use crate::extract::extract_filename;
use crate::extract::extract_search_query;
use crate::extract::spec_extract_filename;
use crate::extract::spec_extract_search_query;
use crate::intent::Intent;
use crate::intent::classify;
use crate::intent::spec_classify;
use crate::text::join_sep;
use crate::text::join_with;
use crate::text::views_of;

verus! {

/// A filesystem operation the engine asks the host to perform, with its
/// parameter taken from the utterance.
pub enum FsRequest {
    Create(String),
    Delete(String),
    Search(String),
    Read(String),
}

/// What the host reports back after performing a request: a bare
/// success (create, delete), file contents (read), the matched paths
/// (search), or a human-readable failure message.
pub enum FsOutcome {
    Success,
    Content(String),
    Matches(Vec<String>),
    Failure(String),
}

/// What handling an utterance requires next: either the reply is already
/// determined, or a filesystem request must be performed first.
pub enum Step {
    Reply(String),
    Fs(FsRequest),
}

/// Mathematical image of an `FsRequest`.
pub enum ReqModel {
    Create(Seq<char>),
    Delete(Seq<char>),
    Search(Seq<char>),
    Read(Seq<char>),
}

/// Mathematical image of a `Step`.
pub enum PlanModel {
    Reply(Seq<char>),
    Fs(ReqModel),
}

/// The model of a request value.
pub open spec fn req_model(req: FsRequest) -> ReqModel {
    match req {
        FsRequest::Create(name) => ReqModel::Create(name@),
        FsRequest::Delete(name) => ReqModel::Delete(name@),
        FsRequest::Search(query) => ReqModel::Search(query@),
        FsRequest::Read(name) => ReqModel::Read(name@),
    }
}

/// The model of a step value.
pub open spec fn step_model(step: Step) -> PlanModel {
    match step {
        Step::Reply(reply) => PlanModel::Reply(reply@),
        Step::Fs(req) => PlanModel::Fs(req_model(req)),
    }
}

/// Reply when a create command names no file.
pub open spec fn missing_create_reply() -> Seq<char> {
    "Please specify a filename to create. Example: 'create file notes.txt'"@
}

/// Reply when a delete command names no file.
pub open spec fn missing_delete_reply() -> Seq<char> {
    "Please specify a filename to delete. Example: 'delete notes.txt'"@
}

/// Reply when a read command names no file.
pub open spec fn missing_read_reply() -> Seq<char> {
    "Please specify a filename to read. Example: 'read notes.txt'"@
}

/// Fixed capability summary for a help request.
pub open spec fn help_reply() -> Seq<char> {
    "I can help you with these file operations:\n- Create files: 'create file notes.txt'\n- Delete files: 'delete notes.txt'\n- Search files: 'find Python files' or 'search documents'\n- Read files: 'read notes.txt'\nWhat would you like to do?"@
}

/// Fixed greeting.
pub open spec fn greeting_reply() -> Seq<char> {
    "Hello! I'm your AI assistant. I can help you with file operations and answer questions. What would you like to do today?"@
}

/// Fixed goodbye.
pub open spec fn farewell_reply() -> Seq<char> {
    "Goodbye! Feel free to ask for help anytime. Have a great day!"@
}

/// Fixed clarification request for an unclassified utterance.
pub open spec fn unknown_reply() -> Seq<char> {
    "I understand you're asking about something. Could you please provide more details? I can help you with file operations, answer questions, or assist with other tasks."@
}

/// Reply when a search matched nothing.
pub open spec fn no_matches_reply() -> Seq<char> {
    "No files found matching your search."@
}

/// The plan for an utterance: classify it, extract the parameter the
/// intent needs, and either settle on a reply at once (missing
/// parameter, help, greeting, farewell, unknown) or name the filesystem
/// request to perform.
pub open spec fn spec_plan(u: Seq<char>) -> PlanModel {
    match spec_classify(u) {
        Intent::Create => match spec_extract_filename(u) {
            Some(name) => PlanModel::Fs(ReqModel::Create(name)),
            None => PlanModel::Reply(missing_create_reply()),
        },
        Intent::Delete => match spec_extract_filename(u) {
            Some(name) => PlanModel::Fs(ReqModel::Delete(name)),
            None => PlanModel::Reply(missing_delete_reply()),
        },
        Intent::Search => PlanModel::Fs(ReqModel::Search(spec_extract_search_query(u))),
        Intent::Read => match spec_extract_filename(u) {
            Some(name) => PlanModel::Fs(ReqModel::Read(name)),
            None => PlanModel::Reply(missing_read_reply()),
        },
        Intent::Help => PlanModel::Reply(help_reply()),
        Intent::Greet => PlanModel::Reply(greeting_reply()),
        Intent::Farewell => PlanModel::Reply(farewell_reply()),
        Intent::Unknown => PlanModel::Reply(unknown_reply()),
    }
}

/// Decide what handling the utterance requires: exactly the plan that
/// `spec_plan` assigns to it.
pub fn plan_utterance(input: &str) -> (step: Step)
    ensures
        step_model(step) == spec_plan(input@),
{
    match classify(input) {
        Intent::Create => match extract_filename(input) {
            Some(name) => Step::Fs(FsRequest::Create(name)),
            None => Step::Reply(String::from_str(
                "Please specify a filename to create. Example: 'create file notes.txt'",
            )),
        },
        Intent::Delete => match extract_filename(input) {
            Some(name) => Step::Fs(FsRequest::Delete(name)),
            None => Step::Reply(String::from_str(
                "Please specify a filename to delete. Example: 'delete notes.txt'",
            )),
        },
        Intent::Search => Step::Fs(FsRequest::Search(extract_search_query(input))),
        Intent::Read => match extract_filename(input) {
            Some(name) => Step::Fs(FsRequest::Read(name)),
            None => Step::Reply(String::from_str(
                "Please specify a filename to read. Example: 'read notes.txt'",
            )),
        },
        Intent::Help => Step::Reply(String::from_str(
            "I can help you with these file operations:\n- Create files: 'create file notes.txt'\n- Delete files: 'delete notes.txt'\n- Search files: 'find Python files' or 'search documents'\n- Read files: 'read notes.txt'\nWhat would you like to do?",
        )),
        Intent::Greet => Step::Reply(String::from_str(
            "Hello! I'm your AI assistant. I can help you with file operations and answer questions. What would you like to do today?",
        )),
        Intent::Farewell => Step::Reply(String::from_str(
            "Goodbye! Feel free to ask for help anytime. Have a great day!",
        )),
        Intent::Unknown => Step::Reply(String::from_str(
            "I understand you're asking about something. Could you please provide more details? I can help you with file operations, answer questions, or assist with other tasks.",
        )),
    }
}

/// The outcome shapes the host may report for each request: create and
/// delete end in a bare success or a failure, a search in matches or a
/// failure, a read in contents or a failure.
pub open spec fn outcome_fits(req: FsRequest, outcome: FsOutcome) -> bool {
    match req {
        FsRequest::Create(_) | FsRequest::Delete(_) => match outcome {
            FsOutcome::Success | FsOutcome::Failure(_) => true,
            _ => false,
        },
        FsRequest::Search(_) => match outcome {
            FsOutcome::Matches(_) | FsOutcome::Failure(_) => true,
            _ => false,
        },
        FsRequest::Read(_) => match outcome {
            FsOutcome::Content(_) | FsOutcome::Failure(_) => true,
            _ => false,
        },
    }
}

/// The reply for each request and fitting outcome: confirmations and
/// contents on success, an "Error ...: message" sentence on failure, and
/// for a search either the matched paths joined by newlines or the fixed
/// no-matches reply.
pub open spec fn spec_render(req: FsRequest, outcome: FsOutcome) -> Seq<char> {
    match req {
        FsRequest::Create(name) => match outcome {
            FsOutcome::Failure(e) => "Error creating file: "@ + e@,
            _ => "I've created the file: "@ + name@,
        },
        FsRequest::Delete(name) => match outcome {
            FsOutcome::Failure(e) => "Error deleting file: "@ + e@,
            _ => "I've deleted the file: "@ + name@,
        },
        FsRequest::Search(_) => match outcome {
            FsOutcome::Failure(e) => "Error searching files: "@ + e@,
            FsOutcome::Matches(files) => if files@.len() == 0 {
                no_matches_reply()
            } else {
                "Found these files:\n"@ + join_sep(views_of(files@), "\n"@)
            },
            _ => Seq::empty(),
        },
        FsRequest::Read(_) => match outcome {
            FsOutcome::Failure(e) => "Error reading file: "@ + e@,
            FsOutcome::Content(content) => "File contents:\n"@ + content@,
            _ => Seq::empty(),
        },
    }
}

/// Turn the outcome the host reports for a request into the reply text.
pub fn render_outcome(req: &FsRequest, outcome: &FsOutcome) -> (r: String)
    requires
        outcome_fits(*req, *outcome),
    ensures
        r@ == spec_render(*req, *outcome),
{
    match req {
        FsRequest::Create(name) => match outcome {
            FsOutcome::Failure(e) => String::from_str("Error creating file: ").concat(e.as_str()),
            _ => String::from_str("I've created the file: ").concat(name.as_str()),
        },
        FsRequest::Delete(name) => match outcome {
            FsOutcome::Failure(e) => String::from_str("Error deleting file: ").concat(e.as_str()),
            _ => String::from_str("I've deleted the file: ").concat(name.as_str()),
        },
        FsRequest::Search(_) => match outcome {
            FsOutcome::Failure(e) => String::from_str("Error searching files: ").concat(e.as_str()),
            FsOutcome::Matches(files) => if files.len() == 0 {
                String::from_str("No files found matching your search.")
            } else {
                String::from_str("Found these files:\n").concat(join_with(files, "\n").as_str())
            },
            _ => {
                proof {
                    assert(false);
                }
                String::new()
            },
        },
        FsRequest::Read(_) => match outcome {
            FsOutcome::Failure(e) => String::from_str("Error reading file: ").concat(e.as_str()),
            FsOutcome::Content(content) => String::from_str("File contents:\n").concat(
                content.as_str(),
            ),
            _ => {
                proof {
                    assert(false);
                }
                String::new()
            },
        },
    }
}

} // verus!
