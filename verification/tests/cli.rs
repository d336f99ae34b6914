use brightwheel::cli::{hdr_state_text, list_line, parse, Command, USAGE};
use brightwheel::ddc::{Brightness, MonitorInfo};
use brightwheel::DdcError;

fn args(values: &[&str]) -> Vec<String> {
    values.iter().map(ToString::to_string).collect()
}

#[test]
fn defaults_to_help() {
    assert_eq!(parse(&args(&[])), Ok(Command::Help));
}

#[test]
fn parses_commands_and_default_monitor() {
    assert_eq!(parse(&args(&["list"])), Ok(Command::List));
    assert_eq!(parse(&args(&["get"])), Ok(Command::Get { index: 0 }));
    assert_eq!(
        parse(&args(&["set", "77"])),
        Ok(Command::SetBrightness {
            percent: 77,
            index: 0
        })
    );
    assert_eq!(
        parse(&args(&["change", "-5"])),
        Ok(Command::Change {
            delta: -5,
            index: 0
        })
    );
}

#[test]
fn parses_explicit_monitor_indexes_and_aliases() {
    assert_eq!(parse(&args(&["get", "2"])), Ok(Command::Get { index: 2 }));
    assert_eq!(
        parse(&args(&["caps", "3"])),
        Ok(Command::Capabilities { index: 3 })
    );
    assert_eq!(parse(&args(&["hdr"])), Ok(Command::Hdr));
    assert_eq!(parse(&args(&["hdr-toggle"])), Ok(Command::ToggleHdr));
}

#[test]
fn parses_help_and_version_aliases() {
    for alias in ["help", "--help", "-h"] {
        assert_eq!(parse(&args(&[alias])), Ok(Command::Help));
    }
    for alias in ["version", "--version", "-V"] {
        assert_eq!(parse(&args(&[alias])), Ok(Command::Version));
    }
}

#[test]
fn reports_missing_and_invalid_values() {
    assert_eq!(parse(&args(&["set"])), Err("missing PERCENT".to_owned()));
    assert_eq!(
        parse(&args(&["set", "bright"])),
        Err("invalid PERCENT 'bright'".to_owned())
    );
    assert_eq!(
        parse(&args(&["change", "up"])),
        Err("invalid DELTA 'up'".to_owned())
    );
    assert_eq!(
        parse(&args(&["get", "primary"])),
        Err("invalid monitor index 'primary'".to_owned())
    );
}

#[test]
fn rejects_unexpected_arguments() {
    assert_eq!(
        parse(&args(&["list", "1"])),
        Err("unexpected argument '1'".to_owned())
    );
    assert_eq!(
        parse(&args(&["set", "50", "0", "extra"])),
        Err("unexpected argument 'extra'".to_owned())
    );
}

#[test]
fn unknown_command_includes_usage() {
    assert_eq!(
        parse(&args(&["wat"])),
        Err(format!("unknown command 'wat'\n\n{USAGE}"))
    );
}

#[test]
fn numbers_follow_the_standard_integer_syntax() {
    assert_eq!(
        parse(&args(&["set", "+7", "+1"])),
        Ok(Command::SetBrightness { percent: 7, index: 1 })
    );
    assert_eq!(
        parse(&args(&["change", "-2147483648"])),
        Ok(Command::Change { delta: i32::MIN, index: 0 })
    );
    assert_eq!(
        parse(&args(&["change", "2147483648"])),
        Err("invalid DELTA '2147483648'".to_owned())
    );
    assert_eq!(
        parse(&args(&["set", "4294967296"])),
        Err("invalid PERCENT '4294967296'".to_owned())
    );
    assert_eq!(parse(&args(&["set", "-0"])), Err("invalid PERCENT '-0'".to_owned()));
    assert_eq!(parse(&args(&["get", "+"])), Err("invalid monitor index '+'".to_owned()));
    assert_eq!(
        parse(&args(&["get", "4294967296"])),
        Ok(Command::Get { index: 4_294_967_296 })
    );
    assert_eq!(
        parse(&args(&["capabilities", "007"])),
        Ok(Command::Capabilities { index: 7 })
    );
}

#[test]
fn help_and_version_ignore_further_arguments() {
    assert_eq!(parse(&args(&["help", "x"])), Ok(Command::Help));
    assert_eq!(parse(&args(&["-V", "x"])), Ok(Command::Version));
    assert_eq!(parse(&args(&["hdr", "x"])), Err("unexpected argument 'x'".to_owned()));
}

#[test]
fn formats_list_lines_and_hdr_states() {
    let ok = MonitorInfo {
        index: 0,
        description: "Dell U2720Q".to_owned(),
        primary: true,
        brightness: Ok(Brightness { current: 127, maximum: 255 }),
    };
    assert_eq!(list_line(&ok), "0\tprimary\tDell U2720Q\t127/255\t50%");
    let failed = MonitorInfo {
        index: 1,
        description: "Generic PnP".to_owned(),
        primary: false,
        brightness: Err(DdcError::message("no reply")),
    };
    assert_eq!(list_line(&failed), "1\tsecondary\tGeneric PnP\tunsupported\tno reply");
    assert_eq!(hdr_state_text(true), "on");
    assert_eq!(hdr_state_text(false), "off");
}
