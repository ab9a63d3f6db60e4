//! The operator's command line, turned into a request.
use crate::devices::{mode_named, same_text, Mode};
use vstd::prelude::*;

verus! {

/// The settings a driver runs with.
#[derive(Clone, Copy, Debug, PartialEq, Eq, Structural)]
pub struct Args {
    pub mode: Mode,
    /// Product identifier of the device to drive; zero when none was given.
    pub pid: u16,
    pub fahrenheit: bool,
    pub alarm: bool,
}

/// What the command line asks for.
#[derive(Clone, Copy, Debug, PartialEq, Eq, Structural)]
pub enum Request {
    /// Drive a display with these settings.
    Run(Args),
    /// List the connected devices.
    List,
    /// Print the usage text.
    Help,
    /// Print the version.
    Version,
}

/// Why a command line is refused.
#[derive(Clone, Copy, Debug, PartialEq, Eq, Structural)]
pub enum ArgError {
    /// The value of the mode option names no mode.
    InvalidMode,
    /// The mode option is the last argument.
    ModeRequiresValue,
    /// The value of the product option is no number from 1 to 65535.
    InvalidPid,
    /// The product option is the last argument.
    PidRequiresValue,
    /// The argument at this position is no option.
    InvalidOption(usize),
    /// A group of one-letter options holds this unknown letter.
    InvalidFlag(char),
}

/// What `str::parse::<u16>` makes of a text.
pub uninterp spec fn parsed_u16(text: Seq<char>) -> Option<u16>;

/// Calls `str::parse::<u16>`, which reads a decimal number from the text
/// alone. The contract claims only that: the result is a function of the
/// characters, with a failure of any kind given as `None`.
#[verifier::external_body]
fn parse_u16(text: &str) -> (parsed: Option<u16>)
    ensures
        parsed == parsed_u16(text@),
{
    match text.parse::<u16>() {
        Ok(value) => Some(value),
        Err(_) => None,
    }
}

/// The settings before any option is read.
pub open spec fn initial_args() -> Args {
    Args { mode: Mode::Default, pid: 0, fahrenheit: false, alarm: false }
}

/// The product identifier that a parsed number stands for: any number but zero.
pub open spec fn pid_spec(parsed: Option<u16>) -> Result<u16, ArgError> {
    match parsed {
        Some(id) => if id > 0 {
            Ok(id)
        } else {
            Err(ArgError::InvalidPid)
        },
        None => Err(ArgError::InvalidPid),
    }
}

/// Accepts a parsed product identifier unless it is missing or zero.
pub fn pid_from(parsed: Option<u16>) -> (r: Result<u16, ArgError>)
    ensures
        r == pid_spec(parsed),
{
    match parsed {
        Some(id) => {
            if id > 0 {
                Ok(id)
            } else {
                Err(ArgError::InvalidPid)
            }
        },
        None => Err(ArgError::InvalidPid),
    }
}

/// The arguments as texts.
pub open spec fn texts(args: Seq<String>) -> Seq<Seq<char>> {
    Seq::new(args.len(), |i: int| args[i]@)
}

/// Whether the text ends in the letter `m`.
pub open spec fn ends_with_m(text: Seq<char>) -> bool {
    text.len() > 0 && text[text.len() - 1] == 'm'
}

/// Whether the text is a dash followed by at least one more character.
pub open spec fn is_group(text: Seq<char>) -> bool {
    text.len() > 1 && text[0] == '-'
}

/// The request that the arguments from position `i` on amount to, with
/// `acc` read so far. Options are read left to right; the first command
/// (list, help, version) or the first error ends the reading.
pub open spec fn parse_from(args: Seq<Seq<char>>, i: int, acc: Args) -> Result<Request, ArgError>
    decreases args.len() - i, 1int, 0int,
{
    if i < 0 || i >= args.len() {
        Ok(Request::Run(acc))
    } else {
        let arg = args[i];
        if arg == "-m"@ || arg == "--mode"@ {
            if i + 1 < args.len() {
                match mode_named(args[i + 1]) {
                    Some(mode) => parse_from(args, i + 2, (Args { mode, ..acc })),
                    None => Err(ArgError::InvalidMode),
                }
            } else {
                Err(ArgError::ModeRequiresValue)
            }
        } else if arg == "--pid"@ {
            if i + 1 < args.len() {
                match pid_spec(parsed_u16(args[i + 1])) {
                    Ok(pid) => parse_from(args, i + 2, (Args { pid, ..acc })),
                    Err(error) => Err(error),
                }
            } else {
                Err(ArgError::PidRequiresValue)
            }
        } else if arg == "-f"@ || arg == "--fahrenheit"@ {
            parse_from(args, i + 1, (Args { fahrenheit: true, ..acc }))
        } else if arg == "-a"@ || arg == "--alarm"@ {
            parse_from(args, i + 1, (Args { alarm: true, ..acc }))
        } else if arg == "-l"@ || arg == "--list"@ {
            Ok(Request::List)
        } else if arg == "-h"@ || arg == "--help"@ {
            Ok(Request::Help)
        } else if arg == "-v"@ || arg == "--version"@ {
            Ok(Request::Version)
        } else if is_group(arg) {
            group_from(args, i, 1, i, acc)
        } else {
            Err(ArgError::InvalidOption(i as usize))
        }
    }
}

/// The request that a group of one-letter options amounts to, read from
/// its letter `k` on. The group is argument `j`; `i` is the last argument
/// used up so far. The letters `f` and `a` switch their settings on. The
/// letter `m` takes the argument after `i` as the mode, provided argument
/// `i` ends in `m`. Any other letter is an error, which names the whole
/// argument if it begins with two dashes and the letter otherwise. The
/// reading goes on behind argument `i`.
pub open spec fn group_from(args: Seq<Seq<char>>, j: int, k: int, i: int, acc: Args) -> Result<
    Request,
    ArgError,
>
    decreases args.len() - i, 0int, args[j].len() - k,
{
    if !(0 <= j <= i < args.len() && 1 <= k) {
        Ok(Request::Run(acc))
    } else if k >= args[j].len() {
        parse_from(args, i + 1, acc)
    } else {
        let letter = args[j][k];
        if letter == 'm' {
            if i + 1 < args.len() && ends_with_m(args[i]) {
                match mode_named(args[i + 1]) {
                    Some(mode) => group_from(args, j, k + 1, i + 1, (Args { mode, ..acc })),
                    None => Err(ArgError::InvalidMode),
                }
            } else {
                Err(ArgError::ModeRequiresValue)
            }
        } else if letter == 'f' {
            group_from(args, j, k + 1, i, (Args { fahrenheit: true, ..acc }))
        } else if letter == 'a' {
            group_from(args, j, k + 1, i, (Args { alarm: true, ..acc }))
        } else if args[j][1] == '-' {
            Err(ArgError::InvalidOption(j as usize))
        } else {
            Err(ArgError::InvalidFlag(letter))
        }
    }
}

/// Whether the text ends in the letter `m`.
fn text_ends_with_m(text: &str) -> (ends: bool)
    ensures
        ends == ends_with_m(text@),
{
    let n: usize = text.unicode_len();
    n > 0 && text.get_char(n - 1) == 'm'
}

impl Args {
    /// Reads the command line. The first argument is the program's own
    /// name and is passed over.
    pub fn parse(args: &Vec<String>) -> (r: Result<Request, ArgError>)
        ensures
            r == parse_from(texts(args@), 1, initial_args()),
    {
        let ghost all = texts(args@);
        let ghost answer = parse_from(all, 1, initial_args());
        let mut acc = Args { mode: Mode::Default, pid: 0, fahrenheit: false, alarm: false };
        let mut i: usize = 1;
        while i < args.len()
            invariant
                1 <= i,
                all == texts(args@),
                answer == parse_from(all, 1, initial_args()),
                parse_from(all, i as int, acc) == answer,
            decreases args.len() - i,
        {
            let arg = args[i].as_str();
            assert(arg@ == all[i as int]);
            if same_text(arg, "-m") || same_text(arg, "--mode") {
                if i + 1 < args.len() {
                    assert(args[i + 1]@ == all[i + 1]);
                    match Mode::get(args[i + 1].as_str()) {
                        Some(mode) => {
                            acc.mode = mode;
                            i += 1;
                        },
                        None => {
                            return Err(ArgError::InvalidMode);
                        },
                    }
                } else {
                    return Err(ArgError::ModeRequiresValue);
                }
            } else if same_text(arg, "--pid") {
                if i + 1 < args.len() {
                    assert(args[i + 1]@ == all[i + 1]);
                    match pid_from(parse_u16(args[i + 1].as_str())) {
                        Ok(pid) => {
                            acc.pid = pid;
                            i += 1;
                        },
                        Err(error) => {
                            return Err(error);
                        },
                    }
                } else {
                    return Err(ArgError::PidRequiresValue);
                }
            } else if same_text(arg, "-f") || same_text(arg, "--fahrenheit") {
                acc.fahrenheit = true;
            } else if same_text(arg, "-a") || same_text(arg, "--alarm") {
                acc.alarm = true;
            } else if same_text(arg, "-l") || same_text(arg, "--list") {
                return Ok(Request::List);
            } else if same_text(arg, "-h") || same_text(arg, "--help") {
                return Ok(Request::Help);
            } else if same_text(arg, "-v") || same_text(arg, "--version") {
                return Ok(Request::Version);
            } else {
                let n: usize = arg.unicode_len();
                if n > 1 && arg.get_char(0) == '-' {
                    let j: usize = i;
                    let mut k: usize = 1;
                    while k < n
                        invariant
                            1 <= j <= i < args.len(),
                            1 <= k <= n,
                            n > 1,
                            all == texts(args@),
                            arg@ == all[j as int],
                            n == all[j as int].len(),
                            answer == parse_from(all, 1, initial_args()),
                            group_from(all, j as int, k as int, i as int, acc) == answer,
                        decreases n - k,
                    {
                        let letter = arg.get_char(k);
                        if letter == 'm' {
                            assert(args[i as int]@ == all[i as int]);
                            if i + 1 < args.len() && text_ends_with_m(args[i].as_str()) {
                                assert(args[i + 1]@ == all[i + 1]);
                                match Mode::get(args[i + 1].as_str()) {
                                    Some(mode) => {
                                        acc.mode = mode;
                                        i += 1;
                                    },
                                    None => {
                                        return Err(ArgError::InvalidMode);
                                    },
                                }
                            } else {
                                return Err(ArgError::ModeRequiresValue);
                            }
                        } else if letter == 'f' {
                            acc.fahrenheit = true;
                        } else if letter == 'a' {
                            acc.alarm = true;
                        } else if arg.get_char(1) == '-' {
                            return Err(ArgError::InvalidOption(j));
                        } else {
                            return Err(ArgError::InvalidFlag(letter));
                        }
                        k += 1;
                    }
                } else {
                    return Err(ArgError::InvalidOption(i));
                }
            }
            i += 1;
        }
        Ok(Request::Run(acc))
    }
}

} // verus!
