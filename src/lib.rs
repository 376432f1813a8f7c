//! A line-oriented command dispatcher: a registry of named handlers, a
//! whitespace tokenizer, the decisions of the built-in commands and the
//! read-dispatch-report cycle as a state machine.
pub mod commands;
pub mod error;
pub mod registry;
pub mod session;
pub mod tokenize;

pub use commands::{builtin_commands, plan, print_header, Action, Command};
pub use error::{CommandError, ErrorKind};
pub use registry::{AsyncCommandHandler, Invocation};
pub use session::{batch_line, failure_line, Event, Mode, Phase, Session, Step};
pub use tokenize::split_tokens;
