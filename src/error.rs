use vstd::prelude::*;

verus! {

/// The classes of failure a dispatch can end in.
#[derive(Clone, Copy, Debug, PartialEq, Eq, Structural)]
pub enum ErrorKind {
    /// The input line held no token at all.
    NoCommandSpecified,
    /// The first token names no registered command.
    CommandNotFound,
    /// A required positional argument was not given.
    MissingArgument,
    /// A command that takes a sub-command was given none.
    MissingSubcommand,
    /// The sub-command given is not one the command knows.
    UnknownSubcommand,
    /// The handler's own operation failed.
    HandlerFault,
    /// A handler needed the shared context and none was supplied.
    ContextUnavailable,
}

/// A failure of dispatch or of a handler: its class and a readable message.
#[derive(Debug)]
pub struct CommandError {
    pub kind: ErrorKind,
    pub msg: String,
}

impl CommandError {
    /// Builds an error of the given class carrying `msg`.
    pub fn new(kind: ErrorKind, msg: &str) -> (r: CommandError)
        ensures
            r.kind == kind,
            r.msg@ == msg@,
    {
        CommandError { kind, msg: String::from_str(msg) }
    }

    /// The human-readable message.
    pub fn message(&self) -> (r: String)
        ensures
            r@ == self.msg@,
    {
        self.msg.clone()
    }
}

} // verus!
