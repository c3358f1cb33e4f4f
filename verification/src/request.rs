//! Task requests and the worker's command-line contract.
//!
//! The worker is driven by flags: `--mode` with the task kind, then one
//! `--flag value` pair per parameter, in an order fixed by the kind. The
//! caller's own naming of the parameters stops here; from this module on
//! only the worker's kebab-case flags exist.

use vstd::prelude::*;
use vstd::string::*;
use crate::text::texts;

verus! {

/// What the worker is asked to do.
#[derive(Clone, Copy, Debug, PartialEq, Eq, Structural)]
pub enum TaskKind {
    Preview,
    Export,
}

/// One request to the worker, with the parameters its kind takes.
#[derive(Clone, Debug, PartialEq, Eq)]
pub enum TaskRequest {
    Preview { cronograma_path: String, ip_filter: String },
    Export { cronograma_path: String, ip_filter: String, output_path: String },
}

/// The word that names `kind` on the worker's command line.
pub open spec fn kind_name(kind: TaskKind) -> Seq<char> {
    match kind {
        TaskKind::Preview => "preview"@,
        TaskKind::Export => "export"@,
    }
}

/// The kind that `name` denotes, if it denotes one.
pub open spec fn kind_named(name: Seq<char>) -> Option<TaskKind> {
    if name == "preview"@ {
        Some(TaskKind::Preview)
    } else if name == "export"@ {
        Some(TaskKind::Export)
    } else {
        None
    }
}

/// The kind of a request.
pub open spec fn kind_of(request: TaskRequest) -> TaskKind {
    match request {
        TaskRequest::Preview { .. } => TaskKind::Preview,
        TaskRequest::Export { .. } => TaskKind::Export,
    }
}

/// The argument vector for `request`: the mode pair first, then the
/// parameters of its kind as flag and value, in the worker's order.
pub open spec fn request_args(request: TaskRequest) -> Seq<Seq<char>> {
    match request {
        TaskRequest::Preview { cronograma_path, ip_filter } => seq![
            "--mode"@,
            "preview"@,
            "--cronograma-path"@,
            cronograma_path@,
            "--ip-filter"@,
            ip_filter@,
        ],
        TaskRequest::Export { cronograma_path, ip_filter, output_path } => seq![
            "--mode"@,
            "export"@,
            "--cronograma-path"@,
            cronograma_path@,
            "--ip-filter"@,
            ip_filter@,
            "--output-path"@,
            output_path@,
        ],
    }
}

impl TaskKind {
    /// The word for this kind on the worker's command line.
    pub fn name(self) -> (s: &'static str)
        ensures
            s@ == kind_name(self),
    {
        match self {
            TaskKind::Preview => "preview",
            TaskKind::Export => "export",
        }
    }

    /// Recognizes a task kind by its name. Any name other than the two the
    /// worker knows is rejected, so that an unknown kind never gets as far as
    /// a command line.
    pub fn from_name(name: &str) -> (kind: Option<TaskKind>)
        ensures
            kind == kind_named(name@),
    {
        let given = String::from_str(name);
        if given == String::from_str("preview") {
            Some(TaskKind::Preview)
        } else if given == String::from_str("export") {
            Some(TaskKind::Export)
        } else {
            None
        }
    }
}

impl TaskRequest {
    /// A preview request.
    pub fn preview(cronograma_path: String, ip_filter: String) -> (request: TaskRequest)
        ensures
            request == (TaskRequest::Preview { cronograma_path, ip_filter }),
    {
        TaskRequest::Preview { cronograma_path, ip_filter }
    }

    /// An export request.
    pub fn export(cronograma_path: String, ip_filter: String, output_path: String) -> (request:
        TaskRequest)
        ensures
            request == (TaskRequest::Export { cronograma_path, ip_filter, output_path }),
    {
        TaskRequest::Export { cronograma_path, ip_filter, output_path }
    }

    /// The kind of this request.
    pub fn kind(&self) -> (kind: TaskKind)
        ensures
            kind == kind_of(*self),
    {
        match self {
            TaskRequest::Preview { .. } => TaskKind::Preview,
            TaskRequest::Export { .. } => TaskKind::Export,
        }
    }
}

/// Builds the worker's argument vector for `request`.
///
/// Whatever the request holds, the vector opens with `--mode` and the name
/// of the request's kind.
pub fn build(request: &TaskRequest) -> (args: Vec<String>)
    ensures
        texts(args@) == request_args(*request),
        args@.len() >= 2,
        args@[0]@ == "--mode"@,
        args@[1]@ == kind_name(kind_of(*request)),
{
    let mut args: Vec<String> = Vec::new();
    args.push(String::from_str("--mode"));
    match request {
        TaskRequest::Preview { cronograma_path, ip_filter } => {
            args.push(String::from_str("preview"));
            args.push(String::from_str("--cronograma-path"));
            args.push(cronograma_path.clone());
            args.push(String::from_str("--ip-filter"));
            args.push(ip_filter.clone());
        },
        TaskRequest::Export { cronograma_path, ip_filter, output_path } => {
            args.push(String::from_str("export"));
            args.push(String::from_str("--cronograma-path"));
            args.push(cronograma_path.clone());
            args.push(String::from_str("--ip-filter"));
            args.push(ip_filter.clone());
            args.push(String::from_str("--output-path"));
            args.push(output_path.clone());
        },
    }
    assert(texts(args@) =~= request_args(*request));
    args
}

} // verus!
