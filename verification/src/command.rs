//! Resolving the worker's binary and assembling the command to launch.
//!
//! Resolution looks at nothing but the build mode: it reads no file and no
//! environment, so it cannot fail. A path that does not exist shows up
//! later, when the caller tries to launch it.

use vstd::prelude::*;
use vstd::string::*;
use crate::request::{build, request_args, TaskRequest};
use crate::text::texts;

verus! {

/// How the application was built, which decides where the worker lives.
#[derive(Clone, Copy, Debug, PartialEq, Eq, Structural)]
pub enum BuildMode {
    /// The worker is a script, run by the interpreter found on the path.
    Development,
    /// The worker is a self-contained executable shipped with the application.
    Production,
}

/// A command ready to be launched: the executable, the arguments that
/// belong to the executable itself, and the arguments of the task.
#[derive(Clone, Debug, PartialEq, Eq)]
pub struct ResolvedCommand {
    pub executable_path: String,
    pub leading_args: Vec<String>,
    pub trailing_args: Vec<String>,
}

/// A [`ResolvedCommand`] as plain text.
pub struct CommandText {
    pub executable_path: Seq<char>,
    pub leading_args: Seq<Seq<char>>,
    pub trailing_args: Seq<Seq<char>>,
}

impl View for ResolvedCommand {
    type V = CommandText;

    open spec fn view(&self) -> CommandText {
        CommandText {
            executable_path: self.executable_path@,
            leading_args: texts(self.leading_args@),
            trailing_args: texts(self.trailing_args@),
        }
    }
}

/// The command prefix of each build mode. In development the interpreter is
/// handed the script as its first argument; in production the packaged
/// executable stands alone.
pub open spec fn resolved_prefix(mode: BuildMode) -> CommandText {
    match mode {
        BuildMode::Development => CommandText {
            executable_path: "python"@,
            leading_args: seq!["python/main.py"@],
            trailing_args: seq![],
        },
        BuildMode::Production => CommandText {
            executable_path: "python/python_backend.exe"@,
            leading_args: seq![],
            trailing_args: seq![],
        },
    }
}

/// The full command for `request` under `mode`.
pub open spec fn resolved_command(mode: BuildMode, request: TaskRequest) -> CommandText {
    CommandText { trailing_args: request_args(request), ..resolved_prefix(mode) }
}

/// Resolves the worker's executable and leading arguments for `mode`. The
/// task's own arguments are left empty.
pub fn resolve(mode: BuildMode) -> (command: ResolvedCommand)
    ensures
        command@ == resolved_prefix(mode),
{
    let mut leading_args: Vec<String> = Vec::new();
    let executable_path = match mode {
        BuildMode::Development => {
            leading_args.push(String::from_str("python/main.py"));
            String::from_str("python")
        },
        BuildMode::Production => String::from_str("python/python_backend.exe"),
    };
    let command = ResolvedCommand { executable_path, leading_args, trailing_args: Vec::new() };
    assert(command@.leading_args =~= resolved_prefix(mode).leading_args);
    assert(command@.trailing_args =~= resolved_prefix(mode).trailing_args);
    command
}

/// Resolves the binary for `mode` and appends the arguments of `request`.
pub fn command_for(mode: BuildMode, request: &TaskRequest) -> (command: ResolvedCommand)
    ensures
        command@ == resolved_command(mode, *request),
{
    let prefix = resolve(mode);
    ResolvedCommand {
        executable_path: prefix.executable_path,
        leading_args: prefix.leading_args,
        trailing_args: build(request),
    }
}

/// Resolution is a function of the build mode: two commands resolved for the
/// same mode are the same command, however often and whenever they are
/// resolved.
pub proof fn lemma_resolve_is_stable(
    mode: BuildMode,
    first: ResolvedCommand,
    second: ResolvedCommand,
)
    requires
        first@ == resolved_prefix(mode),
        second@ == resolved_prefix(mode),
    ensures
        first@ == second@,
{
}

} // verus!
