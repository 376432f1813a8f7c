use vstd::prelude::*;

use crate::error::{CommandError, ErrorKind};
use crate::registry::AsyncCommandHandler;
use crate::tokenize::views;

verus! {

/// The built-in commands a registry can bind names to.
#[derive(Clone, Copy, Debug, PartialEq, Eq, Structural)]
pub enum Command {
    /// Resets the interactive display.
    Clear,
    /// Shows the running version.
    Version,
    /// Saves the media at a URL through the download engine.
    Download,
    /// Reads or writes the stored credential.
    Token,
}

/// The outside work a command asks for, once its arguments are checked.
#[derive(Debug)]
pub enum Action {
    /// Write `text` to the output as it stands.
    Print { text: String },
    /// Save the media at `url` in the working directory, converted to
    /// `format` when one is given.
    Save { url: String, format: Option<String> },
    /// Store `value` as the credential.
    SetToken { value: String },
    /// Read the stored credential and show it.
    GetToken,
}

/// The flag that makes `version` leave out the line break.
pub open spec fn no_newline_flag() -> Seq<char> {
    "no-newline"@
}

/// The control sequence that clears the terminal and homes the cursor.
pub open spec fn clear_text() -> Seq<char> {
    "\x1B[2J\x1B[1;1H"@
}

/// What `version` writes: the version, then a line break unless one of the
/// arguments is the `no-newline` flag.
pub open spec fn version_text(version: Seq<char>, args: Seq<Seq<char>>) -> Seq<char> {
    if args.contains(no_newline_flag()) {
        version
    } else {
        version.push('\n')
    }
}

/// How `download` answers the arguments `a`: the URL is required, and a
/// second argument names the output format.
pub open spec fn download_outcome(a: Seq<Seq<char>>, r: Result<Action, CommandError>) -> bool {
    if a.len() == 0 {
        r matches Err(e) && e.kind == ErrorKind::MissingArgument && e.msg@
            == "URL as first argument required."@
    } else {
        r matches Ok(Action::Save { url, format }) && url@ == a[0] && if a.len() >= 2 {
            format matches Some(f) && f@ == a[1]
        } else {
            format is None
        }
    }
}

/// How `token` answers the arguments `a`: `set <value>` stores a value,
/// `get` reads it; anything else is refused.
pub open spec fn token_outcome(a: Seq<Seq<char>>, r: Result<Action, CommandError>) -> bool {
    if a.len() == 0 {
        r matches Err(e) && e.kind == ErrorKind::MissingSubcommand && e.msg@
            == "Expected sub command!"@
    } else if a[0] == "set"@ {
        if a.len() < 2 {
            r matches Err(e) && e.kind == ErrorKind::MissingArgument && e.msg@
                == "Expected new value!"@
        } else {
            r matches Ok(Action::SetToken { value }) && value@ == a[1]
        }
    } else if a[0] == "get"@ {
        r matches Ok(Action::GetToken)
    } else {
        r matches Err(e) && e.kind == ErrorKind::UnknownSubcommand && e.msg@
            == "Unknown subcommand."@
    }
}

/// How `cmd` answers the arguments `a` when the running version is `v`.
pub open spec fn plan_outcome(
    cmd: Command,
    a: Seq<Seq<char>>,
    v: Seq<char>,
    r: Result<Action, CommandError>,
) -> bool {
    match cmd {
        Command::Clear => r matches Ok(Action::Print { text }) && text@ == clear_text(),
        Command::Version => r matches Ok(Action::Print { text }) && text@ == version_text(v, a),
        Command::Download => download_outcome(a, r),
        Command::Token => token_outcome(a, r),
    }
}

/// The banner shown when an interactive session starts.
pub open spec fn header_text(version: Seq<char>) -> Seq<char> {
    "\x1B[1m\x1B[47m\x1B[31m DR \x1B[49m\x1B[39m Downloader CLI\x1B[0m v"@ + version + "\n\n"@
}

/// Whether some element of `args` equals `s`.
fn contains_arg(args: &Vec<String>, s: &str) -> (r: bool)
    ensures
        r == views(args@).contains(s@),
{
    let wanted = String::from_str(s);
    let mut i: usize = 0;
    while i < args.len()
        invariant
            i <= args@.len(),
            wanted@ == s@,
            forall|j: int| 0 <= j < i ==> args@[j]@ != s@,
        decreases args@.len() - i,
    {
        if args[i] == wanted {
            assert(views(args@)[i as int] == s@);
            return true;
        }
        i = i + 1;
    }
    proof {
        if views(args@).contains(s@) {
            let j = choose|j: int| 0 <= j < views(args@).len() && views(args@)[j] == s@;
            assert(args@[j]@ == s@);
        }
    }
    false
}

/// The banner text for `version`.
pub fn print_header(version: &str) -> (r: String)
    ensures
        r@ == header_text(version@),
{
    let mut text = String::from_str("\x1B[1m\x1B[47m\x1B[31m DR \x1B[49m\x1B[39m Downloader CLI\x1B[0m v");
    text.append(version);
    text.append("\n\n");
    text
}

/// The output of `version`: `version` with a trailing line break, or without
/// one when `no-newline` is among the arguments.
pub fn version(args: &Vec<String>, current: &str) -> (r: Action)
    ensures
        r matches Action::Print { text } && text@ == version_text(current@, views(args@)),
{
    let mut text = String::from_str(current);
    if !contains_arg(args, "no-newline") {
        text.append("\n");
        proof {
            reveal_strlit("\n");
        }
        assert(text@ =~= current@.push('\n'));
    }
    Action::Print { text }
}

/// `download <url> [format]`: the URL is required; a second argument names
/// the output format.
pub fn download(args: Vec<String>) -> (r: Result<Action, CommandError>)
    ensures
        download_outcome(views(args@), r),
{
    let mut args = args;
    if args.len() == 0 {
        return Err(CommandError::new(ErrorKind::MissingArgument, "URL as first argument required."));
    }
    let ghost all = args@;
    let url = args.remove(0);
    let format = if args.len() == 0 {
        None
    } else {
        assert(args@[0] == all[1]);
        Some(args.remove(0))
    };
    Ok(Action::Save { url, format })
}

/// `token set <value>` stores a credential and `token get` reads it back.
pub fn token(args: &Vec<String>) -> (r: Result<Action, CommandError>)
    ensures
        token_outcome(views(args@), r),
{
    if args.len() == 0 {
        return Err(CommandError::new(ErrorKind::MissingSubcommand, "Expected sub command!"));
    }
    let set = String::from_str("set");
    let get = String::from_str("get");
    if args[0] == set {
        if args.len() < 2 {
            return Err(CommandError::new(ErrorKind::MissingArgument, "Expected new value!"));
        }
        let value = args[1].clone();
        Ok(Action::SetToken { value })
    } else if args[0] == get {
        Ok(Action::GetToken)
    } else {
        Err(CommandError::new(ErrorKind::UnknownSubcommand, "Unknown subcommand."))
    }
}

/// Checks the arguments of `cmd` and says what outside work it needs.
pub fn plan(cmd: Command, args: Vec<String>, version_str: &str) -> (r: Result<
    Action,
    CommandError,
>)
    ensures
        plan_outcome(cmd, views(args@), version_str@, r),
{
    match cmd {
        Command::Clear => Ok(Action::Print { text: String::from_str("\x1B[2J\x1B[1;1H") }),
        Command::Version => Ok(version(&args, version_str)),
        Command::Download => download(args),
        Command::Token => token(&args),
    }
}

/// The names the built-in commands answer to.
pub open spec fn builtin_map() -> Map<Seq<char>, Command> {
    map![
        "clear"@ => Command::Clear,
        "download"@ => Command::Download,
        "token"@ => Command::Token,
        "version"@ => Command::Version,
    ]
}

/// A registry holding the built-in commands under their names.
pub fn builtin_commands() -> (r: AsyncCommandHandler<Command>)
    ensures
        r.wf(),
        r@ == builtin_map(),
{
    let mut r = AsyncCommandHandler::new();
    r.register("clear", Command::Clear);
    r.register("download", Command::Download);
    r.register("token", Command::Token);
    r.register("version", Command::Version);
    assert(r@ =~= builtin_map());
    r
}

} // verus!
