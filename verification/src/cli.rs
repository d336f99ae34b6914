//! The `bright` command line: parsing the arguments into a command, and the
//! text it prints.
use vstd::prelude::*;

use crate::ddc::{spec_value_to_percent, MonitorInfo};
use crate::text::{
    append_decimal, decimal, i32_text, lemma_i32_text_reads_back, lemma_unsigned_reads_back, parse_i32, parse_i32_spec,
    parse_index, parse_u32, parse_unsigned, push_char, str_equals,
};

verus! {

/// The usage text.
pub const USAGE: &'static str = "Usage:
  bright list
  bright get [MONITOR]
  bright set PERCENT [MONITOR]
  bright change DELTA [MONITOR]
  bright capabilities [MONITOR]
  bright hdr
  bright hdr-toggle

PERCENT is 0..100. MONITOR is an optional numeric index shown by bright list.
Type the number without square brackets; the default is 0.";

/// A command of the `bright` tool.
#[derive(Debug, Clone, Copy, PartialEq, Eq, Structural)]
pub enum Command {
    /// List the monitors.
    List,
    /// Print the brightness of monitor `index`.
    Get { index: usize },
    /// Set monitor `index` to `percent`.
    SetBrightness { percent: u32, index: usize },
    /// Change monitor `index` by `delta` points.
    Change { delta: i32, index: usize },
    /// Print the capabilities string of monitor `index`.
    Capabilities { index: usize },
    /// Print whether HDR is on.
    Hdr,
    /// Toggle HDR.
    ToggleHdr,
    /// Print the usage.
    Help,
    /// Print the version.
    Version,
}

/// `prefix` followed by `value` in single quotes.
pub open spec fn quoted(prefix: Seq<char>, value: Seq<char>) -> Seq<char> {
    prefix + seq!['\''] + value + seq!['\'']
}

/// The optional monitor index at position `pos` of `rest`: 0 when absent.
pub open spec fn index_arg(rest: Seq<Seq<char>>, pos: int) -> Result<usize, Seq<char>> {
    if pos >= rest.len() {
        Ok(0)
    } else {
        match parse_unsigned(rest[pos], usize::MAX as nat) {
            Some(v) => Ok(v as usize),
            None => Err(quoted("invalid monitor index "@, rest[pos])),
        }
    }
}

/// The required `u32` argument `name` at position `pos` of `rest`.
pub open spec fn u32_arg(rest: Seq<Seq<char>>, pos: int, name: Seq<char>) -> Result<u32, Seq<char>> {
    if pos >= rest.len() {
        Err("missing "@ + name)
    } else {
        match parse_unsigned(rest[pos], u32::MAX as nat) {
            Some(v) => Ok(v as u32),
            None => Err(quoted("invalid "@ + name + " "@, rest[pos])),
        }
    }
}

/// The required `i32` argument `name` at position `pos` of `rest`.
pub open spec fn i32_arg(rest: Seq<Seq<char>>, pos: int, name: Seq<char>) -> Result<i32, Seq<char>> {
    if pos >= rest.len() {
        Err("missing "@ + name)
    } else {
        match parse_i32_spec(rest[pos]) {
            Some(v) => Ok(v as i32),
            None => Err(quoted("invalid "@ + name + " "@, rest[pos])),
        }
    }
}

/// `command` when nothing follows position `pos` of `rest`, else the error for
/// the first extra argument.
pub open spec fn exactly(rest: Seq<Seq<char>>, pos: int, command: Command) -> Result<Command, Seq<char>> {
    if pos < rest.len() {
        Err(quoted("unexpected argument "@, rest[pos]))
    } else {
        Ok(command)
    }
}

/// The command that `args` (without the program name) ask for, or the message
/// explaining why they are refused. No argument asks for help.
pub open spec fn parse_spec(args: Seq<Seq<char>>) -> Result<Command, Seq<char>> {
    let command = if args.len() == 0 {
        "help"@
    } else {
        args[0]
    };
    let rest = if args.len() == 0 {
        Seq::<Seq<char>>::empty()
    } else {
        args.drop_first()
    };
    if command == "list"@ {
        exactly(rest, 0, Command::List)
    } else if command == "get"@ {
        match index_arg(rest, 0) {
            Ok(index) => exactly(rest, 1, Command::Get { index }),
            Err(e) => Err(e),
        }
    } else if command == "set"@ {
        match u32_arg(rest, 0, "PERCENT"@) {
            Ok(percent) => match index_arg(rest, 1) {
                Ok(index) => exactly(rest, 2, Command::SetBrightness { percent, index }),
                Err(e) => Err(e),
            },
            Err(e) => Err(e),
        }
    } else if command == "change"@ {
        match i32_arg(rest, 0, "DELTA"@) {
            Ok(delta) => match index_arg(rest, 1) {
                Ok(index) => exactly(rest, 2, Command::Change { delta, index }),
                Err(e) => Err(e),
            },
            Err(e) => Err(e),
        }
    } else if command == "capabilities"@ || command == "caps"@ {
        match index_arg(rest, 0) {
            Ok(index) => exactly(rest, 1, Command::Capabilities { index }),
            Err(e) => Err(e),
        }
    } else if command == "hdr"@ {
        exactly(rest, 0, Command::Hdr)
    } else if command == "hdr-toggle"@ {
        exactly(rest, 0, Command::ToggleHdr)
    } else if command == "help"@ || command == "--help"@ || command == "-h"@ {
        Ok(Command::Help)
    } else if command == "version"@ || command == "--version"@ || command == "-V"@ {
        Ok(Command::Version)
    } else {
        Err(quoted("unknown command "@, command) + seq!['\n', '\n'] + USAGE@)
    }
}

/// The command words of `bright` are told apart.
proof fn lemma_command_words_differ()
    ensures
        "change"@ != "list"@,
        "change"@ != "get"@,
        "change"@ != "set"@,
        "set"@ != "list"@,
        "set"@ != "get"@,
        "get"@ != "list"@,
{
    reveal_strlit("list");
    reveal_strlit("get");
    reveal_strlit("set");
    reveal_strlit("change");
    assert("change"@.len() == 6);
    assert("list"@.len() == 4);
    assert("get"@.len() == 3);
    assert("set"@.len() == 3);
    assert("set"@[0] != "get"@[0]);
}

/// `bright change DELTA MONITOR` changes the given monitor by the given delta:
/// for every `i32` delta and every monitor index, written as numbers, the
/// command line parses to exactly that change, and without the monitor to the
/// same change of monitor 0.
pub proof fn lemma_change_reads_its_arguments(delta: i32, index: usize)
    ensures
        parse_spec(seq!["change"@, i32_text(delta), decimal(index as nat)]) == Ok::<Command, Seq<char>>(
            Command::Change { delta, index },
        ),
        parse_spec(seq!["change"@, i32_text(delta)]) == Ok::<Command, Seq<char>>(
            Command::Change { delta, index: 0 },
        ),
{
    lemma_command_words_differ();
    lemma_i32_text_reads_back(delta);
    lemma_unsigned_reads_back(index as nat, usize::MAX as nat);
    let args = seq!["change"@, i32_text(delta), decimal(index as nat)];
    let rest = args.drop_first();
    assert(rest =~= seq![i32_text(delta), decimal(index as nat)]);
    lemma_command_words_differ();
    let short = seq!["change"@, i32_text(delta)];
    assert(short.drop_first() =~= seq![i32_text(delta)]);
}

/// `bright set PERCENT MONITOR` sets the given monitor to the given percentage:
/// for every `u32` percentage and every monitor index, written as numbers, the
/// command line parses to exactly that setting, and without the monitor to the
/// same setting of monitor 0.
pub proof fn lemma_set_reads_its_arguments(percent: u32, index: usize)
    ensures
        parse_spec(seq!["set"@, decimal(percent as nat), decimal(index as nat)]) == Ok::<Command, Seq<char>>(
            Command::SetBrightness { percent, index },
        ),
        parse_spec(seq!["set"@, decimal(percent as nat)]) == Ok::<Command, Seq<char>>(
            Command::SetBrightness { percent, index: 0 },
        ),
{
    lemma_command_words_differ();
    lemma_unsigned_reads_back(percent as nat, u32::MAX as nat);
    lemma_unsigned_reads_back(index as nat, usize::MAX as nat);
    let args = seq!["set"@, decimal(percent as nat), decimal(index as nat)];
    assert(args.drop_first() =~= seq![decimal(percent as nat), decimal(index as nat)]);
    let short = seq!["set"@, decimal(percent as nat)];
    assert(short.drop_first() =~= seq![decimal(percent as nat)]);
}

/// `bright get MONITOR` reads the given monitor: for every monitor index,
/// written as a number, the command line parses to a read of that monitor, and
/// without it to a read of monitor 0.
pub proof fn lemma_get_reads_its_argument(index: usize)
    ensures
        parse_spec(seq!["get"@, decimal(index as nat)]) == Ok::<Command, Seq<char>>(Command::Get { index }),
        parse_spec(seq!["get"@]) == Ok::<Command, Seq<char>>(Command::Get { index: 0 }),
{
    lemma_command_words_differ();
    lemma_unsigned_reads_back(index as nat, usize::MAX as nat);
    let args = seq!["get"@, decimal(index as nat)];
    assert(args.drop_first() =~= seq![decimal(index as nat)]);
    assert(seq!["get"@].drop_first() =~= Seq::<Seq<char>>::empty());
}

/// The characters of each argument.
pub open spec fn args_view(args: Seq<String>) -> Seq<Seq<char>> {
    args.map_values(|s: String| s@)
}

/// Whether the parse outcome `r` is the outcome `spec` of the grammar.
pub open spec fn parsed_as(r: Result<Command, String>, spec: Result<Command, Seq<char>>) -> bool {
    match (r, spec) {
        (Ok(c), Ok(d)) => c == d,
        (Err(m), Err(n)) => m@ == n,
        _ => false,
    }
}

/// `prefix` followed by `value` in single quotes, as a new string.
fn quote(prefix: &str, value: &str) -> (r: String)
    ensures
        r@ == quoted(prefix@, value@),
{
    let mut text = prefix.to_owned();
    push_char(&mut text, '\'');
    text.append(value);
    push_char(&mut text, '\'');
    assert(text@ =~= quoted(prefix@, value@));
    text
}

/// Reads the optional monitor index at position `pos`.
pub fn optional_index(args: &Vec<String>, pos: usize) -> (r: Result<usize, String>)
    ensures
        match (r, index_arg(args_view(args@), pos as int)) {
            (Ok(a), Ok(b)) => a == b,
            (Err(m), Err(n)) => m@ == n,
            _ => false,
        },
{
    if pos >= args.len() {
        return Ok(0);
    }
    let value = args[pos].as_str();
    match parse_index(value) {
        Some(index) => Ok(index),
        None => Err(quote("invalid monitor index ", value)),
    }
}

/// Reads the required `u32` argument `name` at position `pos`.
pub fn required_u32(args: &Vec<String>, pos: usize, name: &str) -> (r: Result<u32, String>)
    ensures
        match (r, u32_arg(args_view(args@), pos as int, name@)) {
            (Ok(a), Ok(b)) => a == b,
            (Err(m), Err(n)) => m@ == n,
            _ => false,
        },
{
    if pos >= args.len() {
        let mut text = "missing ".to_owned();
        text.append(name);
        return Err(text);
    }
    let value = args[pos].as_str();
    match parse_u32(value) {
        Some(v) => Ok(v),
        None => {
            let mut prefix = "invalid ".to_owned();
            prefix.append(name);
            prefix.append(" ");
            Err(quote(prefix.as_str(), value))
        },
    }
}

/// Reads the required `i32` argument `name` at position `pos`.
pub fn required_i32(args: &Vec<String>, pos: usize, name: &str) -> (r: Result<i32, String>)
    ensures
        match (r, i32_arg(args_view(args@), pos as int, name@)) {
            (Ok(a), Ok(b)) => a == b,
            (Err(m), Err(n)) => m@ == n,
            _ => false,
        },
{
    if pos >= args.len() {
        let mut text = "missing ".to_owned();
        text.append(name);
        return Err(text);
    }
    let value = args[pos].as_str();
    match parse_i32(value) {
        Some(v) => Ok(v),
        None => {
            let mut prefix = "invalid ".to_owned();
            prefix.append(name);
            prefix.append(" ");
            Err(quote(prefix.as_str(), value))
        },
    }
}

/// `command` when no argument follows position `pos`, else the error for the
/// first extra one.
pub fn ensure_no_extra(args: &Vec<String>, pos: usize, command: Command) -> (r: Result<Command, String>)
    ensures
        parsed_as(r, exactly(args_view(args@), pos as int, command)),
{
    if pos < args.len() {
        Err(quote("unexpected argument ", args[pos].as_str()))
    } else {
        Ok(command)
    }
}

/// Parses the arguments of `bright` (without the program name).
pub fn parse(args: &Vec<String>) -> (r: Result<Command, String>)
    ensures
        parsed_as(r, parse_spec(args_view(args@))),
{
    let ghost all = args_view(args@);
    let mut rest: Vec<String> = Vec::new();
    let mut i: usize = 1;
    while i < args.len()
        invariant
            1 <= i <= args@.len() || (i == 1 && args@.len() == 0),
            rest@.len() == i - 1,
            forall|j: int| 0 <= j < rest@.len() ==> #[trigger] rest@[j]@ == args@[j + 1]@,
        decreases args@.len() - i,
    {
        rest.push(args[i].clone());
        i = i + 1;
    }
    let ghost expected_rest = if args@.len() == 0 {
        Seq::<Seq<char>>::empty()
    } else {
        all.drop_first()
    };
    assert(args_view(rest@) =~= expected_rest);
    let help = "help".to_owned();
    let command: &str = if args.len() == 0 { help.as_str() } else { args[0].as_str() };
    assert(command@ == (if args@.len() == 0 { "help"@ } else { all[0] }));
    assert(args_view(rest@) == expected_rest);
    if str_equals(command, "list") {
        ensure_no_extra(&rest, 0, Command::List)
    } else if str_equals(command, "get") {
        match optional_index(&rest, 0) {
            Ok(index) => ensure_no_extra(&rest, 1, Command::Get { index }),
            Err(e) => Err(e),
        }
    } else if str_equals(command, "set") {
        match required_u32(&rest, 0, "PERCENT") {
            Ok(percent) => match optional_index(&rest, 1) {
                Ok(index) => ensure_no_extra(&rest, 2, Command::SetBrightness { percent, index }),
                Err(e) => Err(e),
            },
            Err(e) => Err(e),
        }
    } else if str_equals(command, "change") {
        match required_i32(&rest, 0, "DELTA") {
            Ok(delta) => match optional_index(&rest, 1) {
                Ok(index) => ensure_no_extra(&rest, 2, Command::Change { delta, index }),
                Err(e) => Err(e),
            },
            Err(e) => Err(e),
        }
    } else if str_equals(command, "capabilities") || str_equals(command, "caps") {
        match optional_index(&rest, 0) {
            Ok(index) => ensure_no_extra(&rest, 1, Command::Capabilities { index }),
            Err(e) => Err(e),
        }
    } else if str_equals(command, "hdr") {
        ensure_no_extra(&rest, 0, Command::Hdr)
    } else if str_equals(command, "hdr-toggle") {
        ensure_no_extra(&rest, 0, Command::ToggleHdr)
    } else if str_equals(command, "help") || str_equals(command, "--help") || str_equals(command, "-h") {
        Ok(Command::Help)
    } else if str_equals(command, "version") || str_equals(command, "--version") || str_equals(command, "-V") {
        Ok(Command::Version)
    } else {
        let mut text = quote("unknown command ", command);
        push_char(&mut text, '\n');
        push_char(&mut text, '\n');
        text.append(USAGE);
        assert(text@ =~= quoted("unknown command "@, command@) + seq!['\n', '\n'] + USAGE@);
        Err(text)
    }
}

/// What `bright hdr` prints for an HDR state.
pub fn hdr_state_text(enabled: bool) -> (r: &'static str)
    ensures
        r@ == (if enabled { "on"@ } else { "off"@ }),
{
    if enabled { "on" } else { "off" }
}

/// The line `bright list` prints for one monitor: index, role, description,
/// then either `current/maximum` and the percentage, or `unsupported` and the
/// error, separated by tabs.
pub fn list_line(info: &MonitorInfo) -> (r: String)
    ensures
        ({
            let head = decimal(info.index as nat) + seq!['\t'] + (if info.primary { "primary"@ } else { "secondary"@ })
                + seq!['\t'] + info.description@ + seq!['\t'];
            match info.brightness {
                Ok(b) => r@ == head + decimal(b.current as nat) + seq!['/'] + decimal(b.maximum as nat) + seq!['\t']
                    + decimal(spec_value_to_percent(b.current, b.maximum) as nat) + seq!['%'],
                Err(e) => {
                    let start = head.len() + "unsupported\t"@.len();
                    &&& r@.len() >= start
                    &&& r@.subrange(0, start as int) == head + "unsupported\t"@
                    &&& e.reads_as(r@.subrange(start as int, r@.len() as int))
                },
            }
        }),
{
    let mut text = String::new();
    append_decimal(&mut text, info.index as u64);
    push_char(&mut text, '\t');
    if info.primary {
        text.append("primary");
    } else {
        text.append("secondary");
    }
    push_char(&mut text, '\t');
    text.append(info.description.as_str());
    push_char(&mut text, '\t');
    let ghost head = text@;
    match &info.brightness {
        Ok(b) => {
            append_decimal(&mut text, b.current as u64);
            push_char(&mut text, '/');
            append_decimal(&mut text, b.maximum as u64);
            push_char(&mut text, '\t');
            let percent = b.percent();
            append_decimal(&mut text, percent as u64);
            push_char(&mut text, '%');
            text
        },
        Err(e) => {
            text.append("unsupported\t");
            let ghost mid = text@;
            let shown = e.to_string();
            text.append(shown.as_str());
            assert(text@.subrange(0, mid.len() as int) =~= mid);
            assert(text@.subrange(mid.len() as int, text@.len() as int) =~= shown@);
            text
        },
    }
}

} // verus!
