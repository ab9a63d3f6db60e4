use deepcool_digital_linux::devices::Mode;
use deepcool_digital_linux::utils::args::{pid_from, ArgError, Args, Request};

fn parse(words: &[&str]) -> Result<Request, ArgError> {
    let args: Vec<String> = words.iter().map(|w| w.to_string()).collect();
    Args::parse(&args)
}

fn settings(mode: Mode, pid: u16, fahrenheit: bool, alarm: bool) -> Result<Request, ArgError> {
    Ok(Request::Run(Args { mode, pid, fahrenheit, alarm }))
}

#[test]
fn no_options_give_the_defaults() {
    assert_eq!(parse(&[]), settings(Mode::Default, 0, false, false));
    assert_eq!(parse(&["prog"]), settings(Mode::Default, 0, false, false));
}

#[test]
fn program_name_is_passed_over() {
    assert_eq!(parse(&["--help"]), settings(Mode::Default, 0, false, false));
}

#[test]
fn long_and_short_options() {
    assert_eq!(
        parse(&["prog", "-m", "power", "--pid", "7", "-f", "-a"]),
        settings(Mode::Power, 7, true, true)
    );
    assert_eq!(
        parse(&["prog", "--alarm", "--mode", "auto", "--fahrenheit"]),
        settings(Mode::Auto, 0, true, true)
    );
    assert_eq!(parse(&["prog", "-m", "temp", "-m", "usage"]), settings(Mode::Usage, 0, false, false));
}

#[test]
fn mode_option_errors() {
    assert_eq!(parse(&["prog", "--mode"]), Err(ArgError::ModeRequiresValue));
    assert_eq!(parse(&["prog", "-f", "-m"]), Err(ArgError::ModeRequiresValue));
    assert_eq!(parse(&["prog", "-m", "bogus"]), Err(ArgError::InvalidMode));
    assert_eq!(parse(&["prog", "-m", "default"]), Err(ArgError::InvalidMode));
    assert_eq!(parse(&["prog", "-m", "-f"]), Err(ArgError::InvalidMode));
}

#[test]
fn product_option() {
    assert_eq!(parse(&["prog", "--pid", "1234"]), settings(Mode::Default, 1234, false, false));
    assert_eq!(parse(&["prog", "--pid", "65535"]), settings(Mode::Default, 65535, false, false));
    assert_eq!(parse(&["prog", "--pid", "+5"]), settings(Mode::Default, 5, false, false));
}

#[test]
fn product_option_errors() {
    assert_eq!(parse(&["prog", "--pid"]), Err(ArgError::PidRequiresValue));
    assert_eq!(parse(&["prog", "--pid", "0"]), Err(ArgError::InvalidPid));
    assert_eq!(parse(&["prog", "--pid", "65536"]), Err(ArgError::InvalidPid));
    assert_eq!(parse(&["prog", "--pid", "abc"]), Err(ArgError::InvalidPid));
    assert_eq!(parse(&["prog", "--pid", ""]), Err(ArgError::InvalidPid));
    assert_eq!(parse(&["prog", "--pid", "-1"]), Err(ArgError::InvalidPid));
    assert_eq!(parse(&["prog", "--pid", " 7"]), Err(ArgError::InvalidPid));
}

#[test]
fn product_number_must_not_be_zero() {
    assert_eq!(pid_from(Some(5)), Ok(5));
    assert_eq!(pid_from(Some(65535)), Ok(65535));
    assert_eq!(pid_from(Some(0)), Err(ArgError::InvalidPid));
    assert_eq!(pid_from(None), Err(ArgError::InvalidPid));
}

#[test]
fn commands_end_the_reading() {
    assert_eq!(parse(&["prog", "-l"]), Ok(Request::List));
    assert_eq!(parse(&["prog", "--list"]), Ok(Request::List));
    assert_eq!(parse(&["prog", "-h"]), Ok(Request::Help));
    assert_eq!(parse(&["prog", "-f", "--help", "junk"]), Ok(Request::Help));
    assert_eq!(parse(&["prog", "-v"]), Ok(Request::Version));
    assert_eq!(parse(&["prog", "--version", "--pid"]), Ok(Request::Version));
}

#[test]
fn first_error_wins() {
    assert_eq!(parse(&["prog", "junk", "-h"]), Err(ArgError::InvalidOption(1)));
    assert_eq!(parse(&["prog", "-m", "bogus", "--pid"]), Err(ArgError::InvalidMode));
    assert_eq!(parse(&["prog", "-f", "--pid", "0", "-l"]), Err(ArgError::InvalidPid));
}

#[test]
fn words_that_are_no_options() {
    assert_eq!(parse(&["prog", "-"]), Err(ArgError::InvalidOption(1)));
    assert_eq!(parse(&["prog", ""]), Err(ArgError::InvalidOption(1)));
    assert_eq!(parse(&["prog", "-f", "power"]), Err(ArgError::InvalidOption(2)));
    assert_eq!(parse(&["prog", "--bogus"]), Err(ArgError::InvalidOption(1)));
    assert_eq!(parse(&["prog", "-a", "--fa"]), Err(ArgError::InvalidOption(2)));
}

#[test]
fn grouped_letters() {
    assert_eq!(parse(&["prog", "-fa"]), settings(Mode::Default, 0, true, true));
    assert_eq!(parse(&["prog", "-af", "--pid", "3"]), settings(Mode::Default, 3, true, true));
    assert_eq!(parse(&["prog", "-fam", "temp"]), settings(Mode::Temperature, 0, true, true));
    assert_eq!(parse(&["prog", "-fm", "power", "-a"]), settings(Mode::Power, 0, true, true));
}

#[test]
fn grouped_letter_errors() {
    assert_eq!(parse(&["prog", "-fx"]), Err(ArgError::InvalidFlag('x')));
    assert_eq!(parse(&["prog", "-fl"]), Err(ArgError::InvalidFlag('l')));
    assert_eq!(parse(&["prog", "-f-"]), Err(ArgError::InvalidFlag('-')));
    assert_eq!(parse(&["prog", "-fm"]), Err(ArgError::ModeRequiresValue));
    assert_eq!(parse(&["prog", "-mf", "temp"]), Err(ArgError::ModeRequiresValue));
    assert_eq!(parse(&["prog", "-fm", "bogus"]), Err(ArgError::InvalidMode));
}

#[test]
fn mode_letter_must_end_the_word_before_its_value() {
    // The first `m` takes "temp"; the second finds "temp" before it, which does not end in `m`.
    assert_eq!(parse(&["prog", "-mm", "temp", "power"]), Err(ArgError::ModeRequiresValue));
}
