use crate::rcon::client::ClientConfig;
use vstd::prelude::*;
use vstd::string::StringExecFns;

verus! {

/// `core::num::ParseIntError`, carried to the operator as it is: nothing is
/// known of what it holds.
#[verifier::external_type_specification]
#[verifier::external_body]
pub struct ExParseIntError(core::num::ParseIntError);

/// What the command line gave.
pub struct Args {
    /// A single command to run in place of the interactive loop.
    pub adhoc: Option<String>,
    pub hostname: Option<String>,
    pub port: Option<u16>,
    pub password: Option<String>,
}

/// The complaint about settings that are missing; `None` where none is.
pub open spec fn missing_text(hostname: bool, port: bool, password: bool) -> Option<Seq<char>> {
    if hostname && port && password {
        Some("hostname, port, and password arguments not provided"@)
    } else if hostname && port {
        Some("hostname and port arguments not provided"@)
    } else if hostname && password {
        Some("hostname and password arguments not provided"@)
    } else if port && password {
        Some("hostname and port argument not provided"@)
    } else if hostname {
        Some("hostname argument not provided"@)
    } else if port {
        Some("port argument not provided"@)
    } else if password {
        Some("password argument not provided"@)
    } else {
        None
    }
}

/// Checks that the server's name, its port and the password are all there,
/// and says which are not.
pub fn required_args_present(args: &Args) -> (r: Result<(), String>)
    ensures
        match missing_text(args.hostname is None, args.port is None, args.password is None) {
            None => r is Ok,
            Some(text) => r is Err && r->Err_0@ == text,
        },
{
    match (args.hostname.is_none(), args.port.is_none(), args.password.is_none()) {
        (true, false, false) => Err("hostname argument not provided".to_owned()),
        (false, true, false) => Err("port argument not provided".to_owned()),
        (true, true, false) => Err("hostname and port arguments not provided".to_owned()),
        (false, false, true) => Err("password argument not provided".to_owned()),
        (true, false, true) => Err("hostname and password arguments not provided".to_owned()),
        (false, true, true) => Err("hostname and port argument not provided".to_owned()),
        (true, true, true) => Err(
            "hostname, port, and password arguments not provided".to_owned(),
        ),
        (false, false, false) => Ok(()),
    }
}

/// The number that a decimal digit stands for.
pub open spec fn digit_value(c: char) -> Option<int> {
    if '0' <= c <= '9' {
        Some(c as int - '0' as int)
    } else {
        None
    }
}

/// The number that a run of decimal digits stands for; `None` where a
/// character is no digit.
pub open spec fn decimal_value(digits: Seq<char>) -> Option<int>
    decreases digits.len(),
{
    if digits.len() == 0 {
        Some(0)
    } else {
        match (decimal_value(digits.drop_last()), digit_value(digits.last())) {
            (Some(value), Some(digit)) => Some(10 * value + digit),
            _ => None,
        }
    }
}

/// The port that a text names: decimal digits, at least one, with or
/// without a plus sign before them, that give a number up to 65535.
pub open spec fn port_number(text: Seq<char>) -> Option<u16> {
    let digits = if text.len() > 0 && text[0] == '+' {
        text.skip(1)
    } else {
        text
    };
    if digits.len() == 0 {
        None
    } else {
        match decimal_value(digits) {
            Some(value) => if value <= u16::MAX {
                Some(value as u16)
            } else {
                None
            },
            None => None,
        }
    }
}

/// `str::parse::<u16>`: the number where the text is an optional plus sign
/// and then decimal digits only that give a number within `u16`; an error
/// for any other text, the empty one too.
#[verifier::external_body]
fn parse_port(text: &str) -> (r: Result<u16, core::num::ParseIntError>)
    ensures
        match r {
            Ok(port) => port_number(text@) == Some(port),
            Err(_) => port_number(text@) is None,
        },
{
    text.parse::<u16>()
}

/// `std::fmt::Display` of `core::num::ParseIntError`. The text is the
/// standard library's: nothing is claimed of it.
#[verifier::external_body]
fn parse_error_text(err: &core::num::ParseIntError) -> (s: String) {
    format!("{}", err)
}

/// The port that a text names, if it names one.
pub fn port_of(text: &str) -> (r: Option<u16>)
    ensures
        r == port_number(text@),
{
    match parse_port(text) {
        Ok(port) => Some(port),
        Err(_) => None,
    }
}

/// Fills in, from the values that the environment holds, the settings that
/// the command line left out. What the command line gave is kept.
pub fn load_env_args(
    args: &mut Args,
    hostname: Option<String>,
    port: Option<String>,
    password: Option<String>,
)
    requires
        old(args).port is None && port is Some ==> port_number(port->Some_0@) is Some,
    ensures
        final(args).adhoc == old(args).adhoc,
        final(args).hostname == if old(args).hostname is None {
            hostname
        } else {
            old(args).hostname
        },
        final(args).port == if old(args).port is Some {
            old(args).port
        } else if port is Some {
            port_number(port->Some_0@)
        } else {
            None
        },
        final(args).password == if old(args).password is None {
            password
        } else {
            old(args).password
        },
{
    if args.hostname.is_none() {
        args.hostname = hostname;
    }
    if args.port.is_none() {
        args.port = match port {
            Some(text) => port_of(text.as_str()),
            None => None,
        };
    }
    if args.password.is_none() {
        args.password = password;
    }
}

/// Why a command line was refused.
#[derive(Debug)]
pub enum ArgsError {
    /// An argument that is no known flag.
    InvalidArg(String),
    /// A port that is no number, or too large a one.
    InvalidPort(core::num::ParseIntError),
    MissingHostname,
    MissingPort,
    MissingPassword,
}

impl ArgsError {
    /// The text shown to the operator.
    pub fn to_string(&self) -> (s: String)
        ensures
            self is InvalidArg ==> s@ == "invalid arg `"@ + self->InvalidArg_0@ + "`"@,
            self is MissingHostname ==> s@
                == "hostname not provided (use `-h <hostname>` or `--hostname <hostname>`"@,
            self is MissingPort ==> s@ == "port not provided (use `-p <port>` or `--port <port>`"@,
            self is MissingPassword ==> s@
                == "password not provided (use `-P <password>` or `--password <password>`"@,
    {
        match self {
            ArgsError::InvalidArg(arg) => {
                "invalid arg `".to_owned().concat(arg.as_str()).concat("`")
            },
            ArgsError::InvalidPort(err) => parse_error_text(err),
            ArgsError::MissingHostname => {
                "hostname not provided (use `-h <hostname>` or `--hostname <hostname>`".to_owned()
            },
            ArgsError::MissingPort => {
                "port not provided (use `-p <port>` or `--port <port>`".to_owned()
            },
            ArgsError::MissingPassword => {
                "password not provided (use `-P <password>` or `--password <password>`".to_owned()
            },
        }
    }
}

/// The settings gathered so far, as the contracts speak of them.
pub struct Settings {
    pub hostname: Option<Seq<char>>,
    pub port: Option<u16>,
    pub password: Option<Seq<char>>,
}

/// Why a run over the arguments stops.
pub enum Refusal {
    /// The argument at this place is no known flag.
    InvalidArg(int),
    /// The port at this place is no port; -1 for the environment's.
    InvalidPort(int),
}

pub open spec fn is_hostname_flag(arg: Seq<char>) -> bool {
    arg == "-h"@ || arg == "--hostname"@
}

pub open spec fn is_port_flag(arg: Seq<char>) -> bool {
    arg == "-p"@ || arg == "--port"@
}

pub open spec fn is_password_flag(arg: Seq<char>) -> bool {
    arg == "-P"@ || arg == "--password"@
}

/// The settings after the arguments from `curr` on, each flag followed by
/// its value; a flag that ends the line changes nothing. The run stops at
/// the first argument that is no flag, and at the first port that is none.
pub open spec fn scan(args: Seq<Seq<char>>, curr: int, found: Settings) -> Result<
    Settings,
    Refusal,
>
    decreases args.len() - curr,
{
    if curr < 0 || curr >= args.len() {
        Ok(found)
    } else if is_hostname_flag(args[curr]) {
        if curr + 1 < args.len() {
            scan(args, curr + 2, Settings { hostname: Some(args[curr + 1]), ..found })
        } else {
            Ok(found)
        }
    } else if is_port_flag(args[curr]) {
        if curr + 1 < args.len() {
            match port_number(args[curr + 1]) {
                Some(port) => scan(args, curr + 2, Settings { port: Some(port), ..found }),
                None => Err(Refusal::InvalidPort(curr + 1)),
            }
        } else {
            Ok(found)
        }
    } else if is_password_flag(args[curr]) {
        if curr + 1 < args.len() {
            scan(args, curr + 2, Settings { password: Some(args[curr + 1]), ..found })
        } else {
            Ok(found)
        }
    } else {
        Err(Refusal::InvalidArg(curr))
    }
}

/// The texts of some optional string.
pub open spec fn opt_text(s: Option<String>) -> Option<Seq<char>> {
    match s {
        Some(s) => Some(s@),
        None => None,
    }
}

/// The texts of the arguments.
pub open spec fn arg_texts(args: Seq<String>) -> Seq<Seq<char>> {
    args.map_values(|s: String| s@)
}

/// The settings that the environment gives, before any argument is read.
pub open spec fn env_settings(
    hostname: Option<Seq<char>>,
    port: Option<Seq<char>>,
    password: Option<Seq<char>>,
) -> Result<Settings, Refusal> {
    match port {
        None => Ok(Settings { hostname, port: None, password }),
        Some(text) => match port_number(text) {
            Some(number) => Ok(Settings { hostname, port: Some(number), password }),
            None => Err(Refusal::InvalidPort(-1)),
        },
    }
}

/// The settings that the environment and the arguments give together; the
/// first argument is the program's name and is passed over.
pub open spec fn gathered(
    args: Seq<Seq<char>>,
    hostname: Option<Seq<char>>,
    port: Option<Seq<char>>,
    password: Option<Seq<char>>,
) -> Result<Settings, Refusal> {
    match env_settings(hostname, port, password) {
        Ok(found) => scan(args, 1, found),
        Err(refusal) => Err(refusal),
    }
}

fn same_text(a: &str, b: &str) -> (r: bool)
    ensures
        r == (a@ == b@),
{
    let left = a.to_owned();
    let right = b.to_owned();
    left == right
}

/// Reads the connection settings from the values that the environment
/// holds and from the command line, which wins. Fails on an argument that
/// is no flag, on a port that is none, and where a setting is still missing
/// at the end: the hostname is named first, then the port, then the
/// password.
pub fn eval_args(
    args: &[String],
    env_hostname: Option<String>,
    env_port: Option<String>,
    env_password: Option<String>,
) -> (r: Result<ClientConfig, ArgsError>)
    ensures
        match gathered(
            arg_texts(args@),
            opt_text(env_hostname),
            opt_text(env_port),
            opt_text(env_password),
        ) {
            Err(Refusal::InvalidArg(at)) => {
                &&& 0 <= at < args@.len()
                &&& r is Err
                &&& r->Err_0 is InvalidArg
                &&& r->Err_0->InvalidArg_0@ == args@[at]@
            },
            Err(Refusal::InvalidPort(_)) => r is Err && r->Err_0 is InvalidPort,
            Ok(found) => if found.hostname is None {
                r is Err && r->Err_0 is MissingHostname
            } else if found.port is None {
                r is Err && r->Err_0 is MissingPort
            } else if found.password is None {
                r is Err && r->Err_0 is MissingPassword
            } else {
                &&& r is Ok
                &&& r->Ok_0.hostname@ == found.hostname->Some_0
                &&& r->Ok_0.port == found.port->Some_0
                &&& r->Ok_0.password@ == found.password->Some_0
            },
        },
{
    let mut hostname = env_hostname;
    let mut port: Option<u16> = match env_port {
        None => None,
        Some(text) => match parse_port(text.as_str()) {
            Ok(number) => Some(number),
            Err(err) => {
                return Err(ArgsError::InvalidPort(err));
            },
        },
    };
    let mut password = env_password;
    let ghost texts = arg_texts(args@);
    let ghost goal = gathered(
        texts,
        opt_text(env_hostname),
        opt_text(env_port),
        opt_text(env_password),
    );

    let mut curr: usize = 1;
    while curr < args.len()
        invariant
            texts == arg_texts(args@),
            1 <= curr,
            goal == gathered(
                texts,
                opt_text(env_hostname),
                opt_text(env_port),
                opt_text(env_password),
            ),
            goal == scan(
                texts,
                curr as int,
                Settings { hostname: opt_text(hostname), port, password: opt_text(password) },
            ),
        decreases args@.len() - curr,
    {
        let arg = args[curr].as_str();
        assert(texts[curr as int] == arg@);
        let last = curr == args.len() - 1;
        proof {
            if !last {
                assert(texts[curr + 1] == args@[curr + 1]@);
            }
        }
        if same_text(arg, "-h") || same_text(arg, "--hostname") {
            if !last {
                hostname = Some(args[curr + 1].clone());
            }
        } else if same_text(arg, "-p") || same_text(arg, "--port") {
            if !last {
                match parse_port(args[curr + 1].as_str()) {
                    Ok(number) => {
                        port = Some(number);
                    },
                    Err(err) => {
                        return Err(ArgsError::InvalidPort(err));
                    },
                }
            }
        } else if same_text(arg, "-P") || same_text(arg, "--password") {
            if !last {
                password = Some(args[curr + 1].clone());
            }
        } else {
            return Err(ArgsError::InvalidArg(args[curr].clone()));
        }
        curr = if last {
            curr + 1
        } else {
            curr + 2
        };
    }

    match (hostname, port, password) {
        (None, _, _) => Err(ArgsError::MissingHostname),
        (Some(_), None, _) => Err(ArgsError::MissingPort),
        (Some(_), Some(_), None) => Err(ArgsError::MissingPassword),
        (Some(hostname), Some(port), Some(password)) => Ok(
            ClientConfig { hostname, port, password },
        ),
    }
}

} // verus!
