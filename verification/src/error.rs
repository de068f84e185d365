//! The error a command hands back: one of five kinds, with a readable message.

use vstd::prelude::*;

verus! {

/// What went wrong, by class.
#[derive(Clone, Copy, Debug, PartialEq, Eq, Structural)]
pub enum ErrorKind {
    /// A tool could not be started.
    ProcessLaunchFailure,
    /// A tool ran and reported failure.
    ProcessExitFailure,
    /// A tool printed something that is not the expected text.
    ParseFailure,
    /// A file could not be read, written, moved or created.
    FilesystemFailure,
    /// The caller passed a value that no command accepts.
    InvalidArgument,
}

/// An error of a command: its kind and the text shown to the user.
#[derive(Clone, Debug, PartialEq, Eq)]
pub struct CommandError {
    pub kind: ErrorKind,
    pub message: String,
}

/// The mathematical content of a [`CommandError`].
pub struct CommandErrorView {
    pub kind: ErrorKind,
    pub message: Seq<char>,
}

impl View for CommandError {
    type V = CommandErrorView;

    open spec fn view(&self) -> CommandErrorView {
        CommandErrorView { kind: self.kind, message: self.message@ }
    }
}

impl CommandError {
    /// An error of the given kind with the given message.
    pub fn new(kind: ErrorKind, message: &str) -> (e: CommandError)
        ensures
            e@.kind == kind,
            e@.message == message@,
    {
        CommandError { kind, message: String::from_str(message) }
    }

    /// An error of the given kind whose message is `context` followed by `detail`.
    pub fn with_detail(kind: ErrorKind, context: &str, detail: &str) -> (e: CommandError)
        ensures
            e@.kind == kind,
            e@.message == context@ + detail@,
    {
        let mut message = String::from_str(context);
        message.append(detail);
        CommandError { kind, message }
    }

    /// The text shown to the user.
    pub fn to_text(&self) -> (text: String)
        ensures
            text@ == self@.message,
    {
        self.message.clone()
    }
}

} // verus!
