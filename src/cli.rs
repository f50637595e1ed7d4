//! The command line as plain values, and how it is merged with the
//! configuration into the request of one run. Argument parsing and reading
//! standard input happen outside the library.

use vstd::prelude::*;

use crate::civil::Timestamp;
use crate::config::Config;
use crate::errors::{Error, Fault, SystemError, UserInputError};
use crate::pipeline::{App, Request, Zone};
use crate::services::{host_zone, parse_rfc3339, rfc3339_reading, zone_known};
use crate::text::{trim, trimmed};

verus! {

/// The arguments as given on the command line.
#[derive(Debug)]
pub struct Cli {
    /// The expression; when absent it is read from standard input.
    pub input: Option<String>,
    /// Output pattern or preset name.
    pub format: Option<String>,
    /// Time-zone identifier.
    pub timezone: Option<String>,
    /// A fixed "now", in RFC 3339.
    pub now: Option<String>,
}

/// The user's command, checked and normalised.
#[derive(Debug)]
pub struct Command {
    pub input: String,
    pub format: Option<String>,
    pub timezone: Option<String>,
    pub now: Option<Timestamp>,
}

pub open spec fn opt_view(o: Option<String>) -> Option<Seq<char>> {
    match o {
        Some(s) => Some(s@),
        None => None,
    }
}

pub open spec fn no_input_message() -> Seq<char> {
    "no input provided; pass an argument or pipe data"@
}

pub open spec fn empty_stdin_message() -> Seq<char> {
    "no input provided in stdin; pass an argument or pipe data"@
}

pub open spec fn stdin_failure_message(reason: Seq<char>) -> Seq<char> {
    "failed to read from stdin: "@ + reason
}

pub open spec fn bad_now_message(reason: Seq<char>) -> Seq<char> {
    reason + " (expect RFC 3339, ex.: 2025-06-24T12:00:00Z)"@
}

/// The expression of a run: a non-empty argument as it is; without an argument, the piped
/// text without surrounding blanks, which must not be empty.
pub open spec fn chosen_input(arg: Option<Seq<char>>, piped: Option<Result<Seq<char>, Seq<char>>>) -> Result<Seq<char>, Fault> {
    match arg {
        Some(a) => if a.len() > 0 {
            Ok(a)
        } else {
            Err(Fault::InvalidDateFormat(no_input_message()))
        },
        None => match piped {
            Some(Ok(text)) => if trimmed(text).len() > 0 {
                Ok(trimmed(text))
            } else {
                Err(Fault::InvalidDateFormat(empty_stdin_message()))
            },
            Some(Err(reason)) => Err(Fault::InvalidDateFormat(stdin_failure_message(reason))),
            None => Err(Fault::InvalidDateFormat(no_input_message())),
        },
    }
}

/// The reference instant of a run, if one was given.
pub open spec fn chosen_now(arg: Option<Seq<char>>) -> Result<Option<Timestamp>, Fault> {
    match arg {
        None => Ok(None),
        Some(text) => match rfc3339_reading(text) {
            Ok(at) => Ok(Some(at)),
            Err(reason) => Err(Fault::InvalidNow(bad_now_message(reason))),
        },
    }
}

impl Command {
    /// Checks and normalises the arguments. `piped` is what standard input held, or why it
    /// could not be read, when no expression was given and input is piped; `None` otherwise.
    pub fn from_cli(cli: Cli, piped: Option<Result<String, String>>) -> (r: Result<Command, Error>)
        ensures
            ({
                let piped_view = match piped {
                    Some(Ok(t)) => Some(Ok::<Seq<char>, Seq<char>>(t@)),
                    Some(Err(m)) => Some(Err::<Seq<char>, Seq<char>>(m@)),
                    None => None,
                };
                let input = chosen_input(opt_view(cli.input), piped_view);
                let now = chosen_now(opt_view(cli.now));
                match r {
                    Ok(c) => input == Ok::<Seq<char>, Fault>(c.input@) && now == Ok::<Option<Timestamp>, Fault>(c.now)
                        && c.format == cli.format && c.timezone == cli.timezone,
                    Err(e) => match input {
                        Err(f) => e@ == f,
                        Ok(_) => now == Err::<Option<Timestamp>, Fault>(e@),
                    },
                }
            }),
    {
        let input = match cli.input {
            Some(arg) => {
                if arg.unicode_len() > 0 {
                    arg
                } else {
                    let m = String::from_str("no input provided; pass an argument or pipe data");
                    return Err(Error::UserInput(UserInputError::InvalidDateFormat(m)));
                }
            },
            None => match piped {
                Some(Ok(text)) => {
                    let t = trim(text.as_str());
                    if t.unicode_len() > 0 {
                        t.to_owned()
                    } else {
                        let m = String::from_str("no input provided in stdin; pass an argument or pipe data");
                        return Err(Error::UserInput(UserInputError::InvalidDateFormat(m)));
                    }
                },
                Some(Err(reason)) => {
                    let mut m = String::from_str("failed to read from stdin: ");
                    m.append(reason.as_str());
                    return Err(Error::UserInput(UserInputError::InvalidDateFormat(m)));
                },
                None => {
                    let m = String::from_str("no input provided; pass an argument or pipe data");
                    return Err(Error::UserInput(UserInputError::InvalidDateFormat(m)));
                },
            },
        };
        let now = match &cli.now {
            None => None,
            Some(text) => match parse_rfc3339(text.as_str()) {
                Ok(at) => Some(at),
                Err(reason) => {
                    let mut m = reason;
                    m.append(" (expect RFC 3339, ex.: 2025-06-24T12:00:00Z)");
                    return Err(Error::UserInput(UserInputError::InvalidNow(m)));
                },
            },
        };
        Ok(Command { input, format: cli.format, timezone: cli.timezone, now })
    }
}

pub open spec fn no_format_message() -> Seq<char> {
    "no output format specified"@
}

pub open spec fn bad_zone_message(id: Seq<char>) -> Seq<char> {
    "invalid timezone ID: "@ + id
}

pub open spec fn host_zone_failure_message(reason: Seq<char>) -> Seq<char> {
    "failed to read local timezone: "@ + reason
}

/// The format token of a run: the command's, else the configuration's.
pub open spec fn format_setting(cmd: &Command, cfg: &Config) -> Seq<char> {
    match cmd.format {
        Some(f) => f@,
        None => cfg.format@,
    }
}

/// The zone identifier of a run, without surrounding blanks: the command's, else the
/// configuration's. Empty means the machine's own zone.
pub open spec fn zone_setting(cmd: &Command, cfg: &Config) -> Seq<char> {
    trimmed(match cmd.timezone {
        Some(t) => t@,
        None => cfg.timezone@,
    })
}

/// The zone a given identifier stands for.
pub open spec fn zone_named(id: Seq<char>) -> Result<Seq<char>, Fault> {
    if zone_known(id) {
        Ok(id)
    } else {
        Err(Fault::UnsupportedTimezone(bad_zone_message(id)))
    }
}

/// The zone the machine reports as its own, given what the lookup gave back.
pub open spec fn zone_of_host(host: Result<Seq<char>, Seq<char>>) -> Result<Seq<char>, Fault> {
    match host {
        Ok(id) => zone_named(id),
        Err(reason) => Err(Fault::Config(host_zone_failure_message(reason))),
    }
}

/// The request of a run, once its zone has been settled to `zone`.
pub open spec fn settled(cmd: &Command, cfg: &Config, zone: Result<Seq<char>, Fault>) -> Result<Request, Fault> {
    if trimmed(format_setting(cmd, cfg)).len() == 0 {
        Err(Fault::MissingArgument(no_format_message()))
    } else {
        match zone {
            Ok(id) => Ok(Request {
                expression: cmd.input@,
                format_token: format_setting(cmd, cfg),
                zone: id,
                reference: cmd.now,
            }),
            Err(f) => Err(f),
        }
    }
}

/// A text or a failure message, as plain values.
pub open spec fn texts_view(r: Result<String, String>) -> Result<Seq<char>, Seq<char>> {
    match r {
        Ok(t) => Ok(t@),
        Err(m) => Err(m@),
    }
}

pub open spec fn app_view(r: Result<App, Error>) -> Result<Request, Fault> {
    match r {
        Ok(app) => Ok(app@),
        Err(e) => Err(e@),
    }
}

/// The zone with identifier `id`, or `UnsupportedTimezone`.
pub fn zone_from_id(id: &str) -> (r: Result<Zone, Error>)
    ensures
        match r {
            Ok(z) => zone_named(id@) == Ok::<Seq<char>, Fault>(z.id()),
            Err(e) => zone_named(id@) == Err::<Seq<char>, Fault>(e@),
        },
{
    match Zone::parse(id) {
        Some(z) => Ok(z),
        None => {
            let mut m = String::from_str("invalid timezone ID: ");
            m.append(id);
            Err(Error::UserInput(UserInputError::UnsupportedTimezone(m)))
        },
    }
}

/// The machine's own zone, from what the lookup of its identifier gave back.
pub fn zone_from_host(host: Result<String, String>) -> (r: Result<Zone, Error>)
    ensures
        match r {
            Ok(z) => zone_of_host(texts_view(host)) == Ok::<Seq<char>, Fault>(z.id()),
            Err(e) => zone_of_host(texts_view(host)) == Err::<Seq<char>, Fault>(e@),
        },
{
    match host {
        Ok(id) => zone_from_id(id.as_str()),
        Err(reason) => {
            let mut m = String::from_str("failed to read local timezone: ");
            m.append(reason.as_str());
            Err(Error::System(SystemError::Config(m)))
        },
    }
}

impl App {
    /// Merges the command with the configuration: the command's format and zone win over the
    /// configuration's; a blank format is refused; a blank zone means the machine's own zone,
    /// which is looked up only then.
    pub fn from_cli(cmd: &Command, cfg: &Config) -> (r: Result<App, Error>)
        ensures
            trimmed(format_setting(cmd, cfg)).len() == 0 ==> app_view(r) == Err::<Request, Fault>(
                Fault::MissingArgument(no_format_message()),
            ),
            zone_setting(cmd, cfg).len() > 0 ==> app_view(r) == settled(
                cmd,
                cfg,
                zone_named(zone_setting(cmd, cfg)),
            ),
            zone_setting(cmd, cfg).len() == 0 ==> exists|host: Result<Seq<char>, Seq<char>>|
                app_view(r) == settled(cmd, cfg, zone_of_host(host)),
    {
        let format = match &cmd.format {
            Some(f) => f.clone(),
            None => cfg.format.clone(),
        };
        if trim(format.as_str()).unicode_len() == 0 {
            let m = String::from_str("no output format specified");
            let r = Err(Error::UserInput(UserInputError::MissingArgument(m)));
            assert(app_view(r) == settled(cmd, cfg, zone_of_host(Err(Seq::empty()))));
            return r;
        }
        let setting = match &cmd.timezone {
            Some(t) => t.as_str(),
            None => cfg.timezone.as_str(),
        };
        let id = trim(setting);
        let zone = if id.unicode_len() == 0 {
            let host = host_zone();
            let ghost seen = texts_view(host);
            let z = zone_from_host(host);
            assert(app_view(match z {
                Ok(zz) => Ok(App { date: cmd.input, format, timezone: zz, now: cmd.now }),
                Err(e) => Err(e),
            }) == settled(cmd, cfg, zone_of_host(seen)));
            z
        } else {
            zone_from_id(id)
        };
        match zone {
            Ok(timezone) => Ok(App::new(cmd.input.clone(), format, timezone, cmd.now)),
            Err(e) => Err(e),
        }
    }
}

} // verus!
