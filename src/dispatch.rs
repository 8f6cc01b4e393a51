//! The decisions of the default command: which settings hold, which command
//! runs, and what the notification of its end says.
use vstd::prelude::*;
use crate::error::Error;
use crate::command::CommandOutcome;
use crate::note::{address, address_text, Note, DEFAULT_HOST, DEFAULT_MESSAGE, DEFAULT_TITLE};
use crate::text::{parse_u32, push_signed_decimal, push_str, same_text, signed_decimal, u32_value};

verus! {

/// The default port, as the text a flag would give.
pub const DEFAULT_PORT_STR: &'static str = "6445";

/// The default timeout in milliseconds, as the text a flag would give.
pub const DEFAULT_TIMEOUT_STR: &'static str = "10000";

/// The payload of a liveness probe: a listener takes it and shows nothing.
pub const PING: &'static str = "ping";

/// Title of the notification for a command that exited with code 0.
pub const SUCCESS_TITLE: &'static str = "Complete ✓";

/// Start of the title of the notification for a command that failed.
pub const FAILURE_TITLE: &'static str = "Error ✗ -- exit status: ";

/// Title of a notification that posts a given message.
pub const MESSAGE_TITLE: &'static str = "clin";

/// Settings given as command-line flags: `None` where a flag is absent.
pub struct NoteFlags {
    pub send: bool,
    pub host: Option<String>,
    pub port: Option<String>,
    pub timeout: Option<String>,
}

/// Settings given in the environment: `None` where a variable is not set.
pub struct NoteEnv {
    pub send: Option<String>,
    pub host: Option<String>,
    pub port: Option<String>,
    pub timeout: Option<String>,
}

/// The value that holds for a setting: the flag's, else the environment's,
/// else the default.
pub open spec fn picked(flag: Option<String>, env: Option<String>, default: Seq<char>) -> Seq<
    char,
> {
    match flag {
        Some(f) => f@,
        None => match env {
            Some(e) => e@,
            None => default,
        },
    }
}

/// The value that holds for a setting given by a flag, by the environment
/// and by a default.
pub fn pick_setting(flag: &Option<String>, env: &Option<String>, default: &str) -> (r: String)
    ensures
        flag matches Some(f) ==> r@ == f@,
        flag is None ==> (env matches Some(e) ==> r@ == e@),
        flag is None && env is None ==> r@ == default@,
        r@ == picked(*flag, *env, default@),
{
    match flag {
        Some(f) => f.clone(),
        None => match env {
            Some(e) => e.clone(),
            None => default.to_owned(),
        },
    }
}

/// Whether notifications are sent: the flag is set, or the environment
/// holds `1`.
pub open spec fn send_enabled(flag: bool, env: Option<String>) -> bool {
    flag || (env matches Some(e) && e@ == "1"@)
}

/// Whether notifications are sent.
pub fn sends(flag: bool, env: &Option<String>) -> (r: bool)
    ensures
        r == send_enabled(flag, *env),
{
    if flag {
        return true;
    }
    match env {
        Some(e) => same_text(e.as_str(), "1"),
        None => false,
    }
}

/// The text of the port setting.
pub open spec fn port_text(flags: NoteFlags, env: NoteEnv) -> Seq<char> {
    picked(flags.port, env.port, DEFAULT_PORT_STR@)
}

/// The text of the timeout setting.
pub open spec fn timeout_text(flags: NoteFlags, env: NoteEnv) -> Seq<char> {
    picked(flags.timeout, env.timeout, DEFAULT_TIMEOUT_STR@)
}

/// Reads a setting as a number; the error carries the text.
fn number_setting(text: String) -> (r: Result<u32, Error>)
    ensures
        u32_value(text@) matches Some(v) ==> r == Ok::<u32, Error>(v),
        u32_value(text@) is None ==> (r matches Err(Error::ParseInt(t)) && t@ == text@),
{
    match parse_u32(text.as_str()) {
        Some(v) => Ok(v),
        None => Err(Error::ParseInt(text)),
    }
}

impl Note {
    /// The notification that the settings describe, with the default title
    /// and message. Each setting is the flag's value, else the
    /// environment's, else the default; the port is read before the timeout,
    /// and the first that is not a number is the error.
    pub fn from_settings(flags: &NoteFlags, env: &NoteEnv) -> (r: Result<Note, Error>)
        ensures
            (r is Ok) <==> (u32_value(port_text(*flags, *env)) is Some && u32_value(
                timeout_text(*flags, *env),
            ) is Some),
            r matches Ok(n) ==> {
                &&& n.title@ == DEFAULT_TITLE@
                &&& n.msg@ == DEFAULT_MESSAGE@
                &&& n.send == send_enabled(flags.send, env.send)
                &&& n.host@ == picked(flags.host, env.host, DEFAULT_HOST@)
                &&& Some(n.port) == u32_value(port_text(*flags, *env))
                &&& Some(n.timeout) == u32_value(timeout_text(*flags, *env))
            },
            u32_value(port_text(*flags, *env)) is None ==> (r matches Err(Error::ParseInt(t))
                && t@ == port_text(*flags, *env)),
            u32_value(port_text(*flags, *env)) is Some && u32_value(timeout_text(*flags, *env))
                is None ==> (r matches Err(Error::ParseInt(t)) && t@ == timeout_text(
                *flags,
                *env,
            )),
    {
        let send = sends(flags.send, &env.send);
        let host = pick_setting(&flags.host, &env.host, DEFAULT_HOST);
        let port = number_setting(pick_setting(&flags.port, &env.port, DEFAULT_PORT_STR))?;
        let timeout = number_setting(
            pick_setting(&flags.timeout, &env.timeout, DEFAULT_TIMEOUT_STR),
        )?;
        Ok(Note::with_msg(DEFAULT_MESSAGE).timeout(timeout).send(send).host(host.as_str()).port(port))
    }

    /// The notification that posts `msg` as it is, with the settings of
    /// `from_settings` and its own title.
    pub fn for_message(flags: &NoteFlags, env: &NoteEnv, msg: &str) -> (r: Result<Note, Error>)
        ensures
            (r is Ok) <==> (u32_value(port_text(*flags, *env)) is Some && u32_value(
                timeout_text(*flags, *env),
            ) is Some),
            r matches Ok(n) ==> {
                &&& n.title@ == MESSAGE_TITLE@
                &&& n.msg@ == msg@
                &&& n.send == send_enabled(flags.send, env.send)
                &&& n.host@ == picked(flags.host, env.host, DEFAULT_HOST@)
                &&& Some(n.port) == u32_value(port_text(*flags, *env))
                &&& Some(n.timeout) == u32_value(timeout_text(*flags, *env))
            },
            u32_value(port_text(*flags, *env)) is None ==> (r matches Err(Error::ParseInt(t))
                && t@ == port_text(*flags, *env)),
            u32_value(port_text(*flags, *env)) is Some && u32_value(timeout_text(*flags, *env))
                is None ==> (r matches Err(Error::ParseInt(t)) && t@ == timeout_text(
                *flags,
                *env,
            )),
    {
        let note = Note::from_settings(flags, env)?;
        Ok(note.msg(msg).title(MESSAGE_TITLE))
    }
}

/// The views of a list of strings.
pub open spec fn texts(args: Seq<String>) -> Seq<Seq<char>> {
    args.map_values(|a: String| a@)
}

/// Words joined with one space between each two.
pub open spec fn joined(words: Seq<Seq<char>>) -> Seq<char>
    decreases words.len(),
{
    if words.len() == 0 {
        Seq::empty()
    } else if words.len() == 1 {
        words[0]
    } else {
        joined(words.drop_last()) + seq![' '] + words.last()
    }
}

/// The place of the first `--` among `args[i..]`, or the number of
/// arguments when there is none.
pub open spec fn separator_from(args: Seq<String>, i: int) -> int
    decreases args.len() - i,
{
    if i < 0 || i >= args.len() {
        args.len() as int
    } else if args[i]@ == "--"@ {
        i
    } else {
        separator_from(args, i + 1)
    }
}

/// The command that is run: the command flag's text; else, with trailing
/// arguments, those after the first `--`, joined with single spaces.
pub open spec fn command_of(command: Option<String>, trailing: bool, args: Seq<String>) -> Option<
    Seq<char>,
> {
    match command {
        Some(c) => Some(c@),
        None => if !trailing {
            None
        } else {
            let i = separator_from(args, 0);
            if i < args.len() {
                Some(joined(texts(args).subrange(i + 1, args.len() as int)))
            } else {
                None
            }
        },
    }
}

/// Joins `args[from..]` with single spaces.
fn join_from(args: &Vec<String>, from: usize) -> (r: String)
    requires
        from <= args@.len(),
    ensures
        r@ == joined(texts(args@).subrange(from as int, args@.len() as int)),
{
    let mut s = String::new();
    let mut i: usize = from;
    while i < args.len()
        invariant
            from <= i <= args@.len(),
            s@ == joined(texts(args@).subrange(from as int, i as int)),
        decreases args@.len() - i,
    {
        let ghost before = texts(args@).subrange(from as int, i as int);
        let ghost after = texts(args@).subrange(from as int, i + 1);
        assert(after.drop_last() =~= before);
        assert(after.last() == args@[i as int]@);
        if i > from {
            push_str(&mut s, " ");
            proof {
                reveal_strlit(" ");
            }
        }
        push_str(&mut s, args[i].as_str());
        i = i + 1;
        proof {
            if after.len() == 1 {
                assert(before.len() == 0);
            }
            assert(s@ =~= joined(after));
        }
    }
    s
}

/// The command to run: the command flag's text when given; else, when
/// trailing arguments are given, the arguments after the first `--`,
/// joined with single spaces. A usage error when neither is given, or when
/// no `--` is found.
pub fn command_text(command: &Option<String>, trailing: bool, args: &Vec<String>) -> (r: Result<
    String,
    Error,
>)
    ensures
        match r {
            Ok(t) => command_of(*command, trailing, args@) == Some(t@),
            Err(e) => command_of(*command, trailing, args@) is None && e is Msg,
        },
{
    match command {
        Some(c) => Ok(c.clone()),
        None => {
            if !trailing {
                return Err(
                    Error::Msg(
                        "No command given: pass one with `-c`, after `--`, or a message with `-m` (see `--help`)".to_owned(),
                    ),
                );
            }
            let mut i: usize = 0;
            while i < args.len()
                invariant
                    command is None,
                    trailing,
                    i <= args@.len(),
                    separator_from(args@, 0) == separator_from(args@, i as int),
                decreases args@.len() - i,
            {
                if same_text(args[i].as_str(), "--") {
                    let t = join_from(args, i + 1);
                    assert(separator_from(args@, i as int) == i as int);
                    assert(separator_from(args@, 0) == i as int);
                    return Ok(t);
                }
                i = i + 1;
            }
            Err(Error::Msg("Error parsing command, no `--` delimiter found".to_owned()))
        },
    }
}

/// The title of the notification for how a command ended.
pub open spec fn failure_title(code: i32) -> Seq<char> {
    FAILURE_TITLE@ + signed_decimal(code as int)
}

/// The title of the notification for how a command ended: success for
/// exit code 0, the failure title with the code for any other; an error,
/// which means the command did not run, is passed on.
pub fn outcome_title(outcome: Result<CommandOutcome, Error>) -> (r: Result<String, Error>)
    ensures
        outcome matches Ok(o) ==> (o.exit_code == 0 ==> (r matches Ok(t) && t@ == SUCCESS_TITLE@)),
        outcome matches Ok(o) ==> (o.exit_code != 0 ==> (r matches Ok(t) && t@ == failure_title(
            o.exit_code,
        ))),
        outcome matches Err(e) ==> r == Err::<String, Error>(e),
{
    match outcome {
        Ok(o) => {
            if o.exit_code == 0 {
                Ok(SUCCESS_TITLE.to_owned())
            } else {
                let mut t = String::new();
                push_str(&mut t, FAILURE_TITLE);
                push_signed_decimal(&mut t, o.exit_code);
                Ok(t)
            }
        },
        Err(e) => Err(e),
    }
}

/// The error text when a listener cannot be reached.
pub open spec fn unreachable_text(host: Seq<char>, port: u32) -> Seq<char> {
    "Unable to connect to clin-listener at `"@ + address_text(host, port) + "`"@
}

/// The check made before the command runs: a notification that is sent
/// needs its listener, so when the liveness probe did not reach it
/// (`reached` is false) the command does not run and this is the error.
pub fn preflight(note: &Note, reached: bool) -> (r: Result<(), Error>)
    ensures
        !note.send || reached ==> r is Ok,
        note.send && !reached ==> (r matches Err(Error::Network(m)) && m@ == unreachable_text(
            note.host@,
            note.port,
        )),
{
    if note.send && !reached {
        let mut m = String::new();
        push_str(&mut m, "Unable to connect to clin-listener at `");
        let a = address(note.host.as_str(), note.port);
        push_str(&mut m, a.as_str());
        push_str(&mut m, "`");
        Err(Error::Network(m))
    } else {
        Ok(())
    }
}

/// The command to run and the notification that will carry its text,
/// built on `note`.
pub fn collect_cmd_note(note: Note, command: &Option<String>, trailing: bool, args: &Vec<String>) -> (r:
    Result<(String, Note), Error>)
    ensures
        match r {
            Ok((cmd, _)) => command_of(*command, trailing, args@) == Some(cmd@),
            Err(e) => command_of(*command, trailing, args@) is None && e is Msg,
        },
        r matches Ok((cmd, n)) ==> {
            &&& n.msg@ == cmd@
            &&& n.title@ == note.title@
            &&& n.timeout == note.timeout
            &&& n.send == note.send
            &&& n.host@ == note.host@
            &&& n.port == note.port
        },
{
    let cmd = command_text(command, trailing, args)?;
    let n = note.msg(cmd.as_str());
    Ok((cmd, n))
}

} // verus!
