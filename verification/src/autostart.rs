//! Starting BrightWheel with Windows: the registry changes that enable or
//! disable it, how the registered command is recognized, and how registry
//! statuses are read.
use vstd::prelude::*;

use crate::error::DdcError;
use crate::text::{
    append_utf16, decode_null_terminated, eq_ignore_ascii_case, equals_ignore_ascii_case,
    holds_text, nul_free, nul_terminated_text, push_char, utf16,
};

verus! {

/// The per-user key whose values Windows runs at sign-in.
pub const RUN_KEY: &'static str = "Software\\Microsoft\\Windows\\CurrentVersion\\Run";

/// The application's own per-user key.
pub const CONFIG_KEY: &'static str = "Software\\BrightWheel";

/// The name of the run value.
pub const VALUE_NAME: &'static str = "BrightWheel";

/// The name of the value recording that startup was configured once.
pub const CONFIGURED_NAME: &'static str = "AutoStartConfigured";

/// The Win32 `ERROR_SUCCESS` status.
pub const ERROR_SUCCESS: u32 = 0;

/// The Win32 `ERROR_FILE_NOT_FOUND` status.
pub const ERROR_FILE_NOT_FOUND: u32 = 2;

/// The registry type `REG_SZ`.
pub const REG_SZ: u32 = 1;

/// The registry type `REG_DWORD`.
pub const REG_DWORD: u32 = 4;

/// One change to the registry.
#[derive(Clone, Copy, Debug, PartialEq, Eq, Structural)]
pub enum RegistryChange {
    /// Write the quoted path of the running executable as the run value.
    RegisterRunCommand,
    /// Delete the run value; a missing key or value is no error.
    RemoveRunCommand,
    /// Record, as the DWORD 1, that startup was configured.
    MarkConfigured,
}

/// The changes that enable or disable starting with Windows, in order; the
/// first that fails stops the rest.
pub fn set_enabled(enabled: bool) -> (r: Vec<RegistryChange>)
    ensures
        r@ == seq![
            if enabled { RegistryChange::RegisterRunCommand } else { RegistryChange::RemoveRunCommand },
            RegistryChange::MarkConfigured,
        ],
{
    let mut changes = Vec::new();
    if enabled {
        changes.push(RegistryChange::RegisterRunCommand);
    } else {
        changes.push(RegistryChange::RemoveRunCommand);
    }
    changes.push(RegistryChange::MarkConfigured);
    assert(changes@ =~= seq![
        if enabled { RegistryChange::RegisterRunCommand } else { RegistryChange::RemoveRunCommand },
        RegistryChange::MarkConfigured,
    ]);
    changes
}

/// The changes made on first launch: none once startup was configured, else
/// those that enable it.
pub fn initialize_default(configured: bool) -> (r: Vec<RegistryChange>)
    ensures
        configured ==> r@.len() == 0,
        !configured ==> r@ == seq![RegistryChange::RegisterRunCommand, RegistryChange::MarkConfigured],
{
    if configured {
        Vec::new()
    } else {
        set_enabled(true)
    }
}

/// The command registered for the executable at `path`: the path in double quotes.
pub fn quoted_command(path: &str) -> (r: String)
    ensures
        r@ == seq!['"'] + path@ + seq!['"'],
{
    let mut text = String::new();
    push_char(&mut text, '"');
    text.append(path);
    push_char(&mut text, '"');
    assert(text@ =~= seq!['"'] + path@ + seq!['"']);
    text
}

/// The little-endian 16-bit words of `bytes`, two bytes each.
pub open spec fn le_words(bytes: Seq<u8>) -> Seq<u16> {
    Seq::new(bytes.len() / 2, |i: int| (bytes[2 * i] as int + 256 * bytes[2 * i + 1] as int) as u16)
}

/// Whether a run value holds `command`: a string value of whole UTF-16 units
/// whose text, up to the first NUL, equals `command` ignoring ASCII case.
pub open spec fn spec_run_entry_matches(value_type: u32, bytes: Seq<u8>, command: Seq<char>) -> bool {
    value_type == REG_SZ && bytes.len() % 2 == 0 && eq_ignore_ascii_case(
        nul_terminated_text(le_words(bytes)),
        command,
    )
}

/// Recognizes the run value registered for `command` (the `is_enabled` test).
/// The string value written for a NUL-free command is recognized as it.
pub fn run_entry_matches(value_type: u32, bytes: &Vec<u8>, command: &str) -> (r: bool)
    ensures
        r == spec_run_entry_matches(value_type, bytes@, command@),
        value_type == REG_SZ && bytes@ == le_bytes(utf16(command@).push(0u16)) && nul_free(command@) ==> r,
{
    proof {
        if value_type == REG_SZ && bytes@ == le_bytes(utf16(command@).push(0u16)) && nul_free(command@) {
            lemma_le_words_of_le_bytes(utf16(command@).push(0u16));
        }
    }
    if value_type != REG_SZ || bytes.len() % 2 != 0 {
        return false;
    }
    let len = bytes.len();
    let n = len / 2;
    let mut words: Vec<u16> = Vec::new();
    let mut i: usize = 0;
    while i < n
        invariant
            len == bytes@.len(),
            n == len / 2,
            i <= n,
            words@ == le_words(bytes@).subrange(0, i as int),
        decreases n - i,
    {
        let low = bytes[2 * i] as u16;
        let high = bytes[2 * i + 1] as u16;
        words.push(low + 256 * high);
        i = i + 1;
        assert(words@ =~= le_words(bytes@).subrange(0, i as int));
    }
    assert(words@ =~= le_words(bytes@));
    let registered = decode_null_terminated(words.as_slice());
    proof {
        if bytes@ == le_bytes(utf16(command@).push(0u16)) && nul_free(command@) {
            let encoded = utf16(command@);
            assert(words@ == encoded.push(0u16));
            assert(words@.subrange(0, encoded.len() as int) =~= encoded);
            assert(holds_text(words@, command@));
        }
    }
    equals_ignore_ascii_case(registered.as_str(), command)
}

/// The little-endian bytes of 16-bit units.
pub open spec fn le_bytes(units: Seq<u16>) -> Seq<u8>
    decreases units.len(),
{
    if units.len() == 0 {
        Seq::empty()
    } else {
        le_bytes(units.drop_last()) + seq![(units.last() % 256) as u8, (units.last() / 256) as u8]
    }
}

/// The positions of the two bytes of each unit in `le_bytes`.
proof fn lemma_le_bytes(units: Seq<u16>)
    ensures
        le_bytes(units).len() == 2 * units.len(),
        forall|i: int| #![trigger units[i]] 0 <= i < units.len() ==> le_bytes(units)[2 * i] == (units[i] % 256) as u8
            && le_bytes(units)[2 * i + 1] == (units[i] / 256) as u8,
    decreases units.len(),
{
    if units.len() > 0 {
        let init = units.drop_last();
        lemma_le_bytes(init);
        assert forall|i: int| #![trigger units[i]] 0 <= i < units.len() implies le_bytes(units)[2 * i] == (units[i] % 256) as u8
            && le_bytes(units)[2 * i + 1] == (units[i] / 256) as u8 by {
            if i < init.len() {
                assert(units[i] == init[i]);
            }
        }
    }
}

/// Reading little-endian words back from the bytes of `units` gives `units`.
pub proof fn lemma_le_words_of_le_bytes(units: Seq<u16>)
    ensures
        le_bytes(units).len() == 2 * units.len(),
        le_words(le_bytes(units)) == units,
{
    lemma_le_bytes(units);
    let b = le_bytes(units);
    let w = le_words(b);
    assert forall|i: int| 0 <= i < units.len() implies w[i] == units[i] by {
        let u = units[i];
        assert(b[2 * i] == (u % 256) as u8);
        assert(b[2 * i + 1] == (u / 256) as u8);
        assert(((u % 256) as u8) as int == u % 256);
        assert(((u / 256) as u8) as int == u / 256);
    }
    assert(w =~= units);
}

/// The data of a string value holding `value`: its UTF-16 units and a NUL, in
/// little-endian bytes.
pub fn string_value_bytes(value: &str) -> (r: Vec<u8>)
    ensures
        r@ == le_bytes(utf16(value@).push(0u16)),
{
    let mut units: Vec<u16> = Vec::new();
    append_utf16(&mut units, value);
    units.push(0);
    let mut bytes: Vec<u8> = Vec::new();
    let mut i: usize = 0;
    while i < units.len()
        invariant
            i <= units@.len(),
            bytes@ == le_bytes(units@.subrange(0, i as int)),
        decreases units@.len() - i,
    {
        let u = units[i];
        bytes.push((u % 256) as u8);
        bytes.push((u / 256) as u8);
        proof {
            assert(units@.subrange(0, i + 1).drop_last() =~= units@.subrange(0, i as int));
        }
        i = i + 1;
        assert(bytes@ =~= le_bytes(units@.subrange(0, i as int)));
    }
    assert(units@.subrange(0, units@.len() as int) =~= units@);
    assert(units@ =~= utf16(value@).push(0u16));
    bytes
}

/// The data of a DWORD value: its four little-endian bytes.
pub fn dword_bytes(value: u32) -> (r: Vec<u8>)
    ensures
        r@ == seq![
            (value % 0x100) as u8,
            ((value / 0x100) % 0x100) as u8,
            ((value / 0x1_0000) % 0x100) as u8,
            (value / 0x100_0000) as u8,
        ],
{
    let mut bytes = Vec::new();
    bytes.push((value % 0x100) as u8);
    bytes.push(((value / 0x100) % 0x100) as u8);
    bytes.push(((value / 0x1_0000) % 0x100) as u8);
    bytes.push((value / 0x100_0000) as u8);
    assert(bytes@ =~= seq![
        (value % 0x100) as u8,
        ((value / 0x100) % 0x100) as u8,
        ((value / 0x1_0000) % 0x100) as u8,
        (value / 0x100_0000) as u8,
    ]);
    bytes
}

/// Reads the status of a registry call that may find nothing: `Ok(true)` when
/// it succeeded, `Ok(false)` when the key or value does not exist, else the
/// error for `operation` with the status as its cause.
pub fn lookup_status(operation: &str, status: u32) -> (r: Result<bool, DdcError>)
    ensures
        r == Ok::<bool, DdcError>(true) <==> status == ERROR_SUCCESS,
        r == Ok::<bool, DdcError>(false) <==> status == ERROR_FILE_NOT_FOUND,
        r matches Err(e) ==> status != ERROR_SUCCESS && status != ERROR_FILE_NOT_FOUND && e.description() == operation@ && e.has_source()
            && e.status_code() == Some(status),
        r is Err <==> status != ERROR_SUCCESS && status != ERROR_FILE_NOT_FOUND,
{
    if status == ERROR_SUCCESS {
        Ok(true)
    } else if status == ERROR_FILE_NOT_FOUND {
        Ok(false)
    } else {
        Err(DdcError::windows_code(operation, status))
    }
}

/// The message of the error when the running executable's path is unknown.
pub open spec fn executable_error_text(reason: Seq<char>) -> Seq<char> {
    "cannot resolve current executable: "@ + reason
}

/// The error when the running executable's path cannot be resolved, given the
/// system's reason.
pub fn executable_error(reason: &str) -> (e: DdcError)
    ensures
        e.description() == executable_error_text(reason@),
        !e.has_source(),
{
    let mut text = "cannot resolve current executable: ".to_owned();
    text.append(reason);
    DdcError::from_message(text)
}

} // verus!
