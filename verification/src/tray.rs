//! The tray icon's status: what it shows in its tooltip and how the shared
//! status values are read.
use vstd::prelude::*;

use crate::text::{append_utf16, decimal, push_char, utf16};

verus! {

/// The Win32 `WM_APP` message base.
pub const WM_APP: u32 = 0x8000;

/// The message the shell sends for tray icon events.
pub const CALLBACK_MESSAGE: u32 = WM_APP + 1;

/// The message the worker posts after a brightness change.
pub const BRIGHTNESS_UPDATED: u32 = WM_APP + 2;

/// The message the hook posts to toggle HDR.
pub const TOGGLE_HDR: u32 = WM_APP + 3;

/// The length, in UTF-16 units, of the shell's tooltip buffer.
pub const TOOLTIP_CAPACITY: usize = 128;

/// What the tray icon knows of the monitor.
#[derive(Clone, Copy, Debug, PartialEq, Eq, Structural)]
pub struct Status {
    /// The primary monitor's brightness percentage, when known.
    pub brightness: Option<u32>,
    /// Whether HDR is on, when known.
    pub hdr: Option<bool>,
}

impl Default for Status {
    fn default() -> (r: Self)
        ensures
            r == (Status { brightness: None, hdr: None }),
    {
        Status { brightness: None, hdr: None }
    }
}

/// The brightness part of the tooltip.
pub open spec fn brightness_text(brightness: Option<u32>) -> Seq<char> {
    match brightness {
        Some(b) => "Brightness "@ + decimal(b as nat) + "%"@,
        None => "Brightness unavailable"@,
    }
}

/// The HDR part of the tooltip.
pub open spec fn hdr_text(hdr: Option<bool>) -> Seq<char> {
    match hdr {
        Some(false) => "HDR Off"@,
        Some(true) => "HDR On"@,
        None => "HDR unavailable"@,
    }
}

/// The tooltip for `status`.
pub open spec fn tooltip_text(status: Status) -> Seq<char> {
    "BrightWheel | "@ + brightness_text(status.brightness) + " | "@ + hdr_text(status.hdr)
}

/// The tooltip text for `status`, such as `BrightWheel | Brightness 77% | HDR On`.
pub fn tooltip(status: Status) -> (r: String)
    ensures
        r@ == tooltip_text(status),
{
    let mut text = "BrightWheel | ".to_owned();
    match status.brightness {
        Some(b) => {
            text.append("Brightness ");
            crate::text::append_decimal(&mut text, b as u64);
            push_char(&mut text, '%');
            proof {
                reveal_strlit("%");
            }
        },
        None => {
            text.append("Brightness unavailable");
        },
    }
    text.append(" | ");
    match status.hdr {
        Some(false) => text.append("HDR Off"),
        Some(true) => text.append("HDR On"),
        None => text.append("HDR unavailable"),
    }
    assert(text@ =~= tooltip_text(status));
    text
}

/// Fills `destination` with the UTF-16 units of `value`, as many as fit while
/// keeping the last unit free, and zeros after them.
pub fn copy_wide(destination: &mut [u16], value: &str)
    ensures
        final(destination)@.len() == old(destination)@.len(),
        ({
            let units = utf16(value@);
            let capacity = if old(destination)@.len() == 0 { 0 } else { old(destination)@.len() - 1 };
            let copied = if units.len() < capacity { units.len() as int } else { capacity as int };
            forall|i: int|
                0 <= i < final(destination)@.len() ==> #[trigger] final(destination)@[i] == (if i < copied {
                    units[i]
                } else {
                    0u16
                })
        }),
{
    let mut units: Vec<u16> = Vec::new();
    append_utf16(&mut units, value);
    assert(units@ =~= utf16(value@));
    let n = destination.len();
    let capacity = if n == 0 { 0 } else { n - 1 };
    let copied = if units.len() < capacity { units.len() } else { capacity };
    let mut i: usize = 0;
    while i < n
        invariant
            n == destination@.len(),
            n == old(destination)@.len(),
            copied <= units@.len(),
            copied <= n,
            i <= n,
            forall|j: int| 0 <= j < i ==> #[trigger] destination@[j] == (if j < copied {
                units@[j]
            } else {
                0u16
            }),
        decreases n - i,
    {
        let unit = if i < copied { units[i] } else { 0 };
        destination[i] = unit;
        i = i + 1;
    }
}

/// Writes the tooltip for `status` into the shell's tooltip buffer.
pub fn set_tooltip(destination: &mut [u16], status: Status)
    ensures
        final(destination)@.len() == old(destination)@.len(),
        ({
            let units = utf16(tooltip_text(status));
            let capacity = if old(destination)@.len() == 0 { 0 } else { old(destination)@.len() - 1 };
            let copied = if units.len() < capacity { units.len() as int } else { capacity as int };
            forall|i: int|
                0 <= i < final(destination)@.len() ==> #[trigger] final(destination)@[i] == (if i < copied {
                    units[i]
                } else {
                    0u16
                })
        }),
{
    let text = tooltip(status);
    copy_wide(destination, text.as_str());
}

/// The status held by the shared values `brightness` and `hdr`.
pub open spec fn spec_status_from(brightness: i32, hdr: i32) -> Status {
    Status {
        brightness: if brightness >= 0 { Some(brightness as u32) } else { None },
        hdr: if hdr == 0 {
            Some(false)
        } else if hdr == 1 {
            Some(true)
        } else {
            None
        },
    }
}

/// The shared value that records a brightness outcome.
pub open spec fn spec_brightness_value(outcome: Option<u32>) -> i32 {
    match outcome {
        Some(p) => p as i32,
        None => -1i32,
    }
}

/// The shared value that records an HDR state.
pub open spec fn spec_hdr_value(enabled: bool) -> i32 {
    if enabled { 1i32 } else { 0i32 }
}

/// The status held by the shared values: a brightness below zero is unknown,
/// HDR is off at 0, on at 1 and unknown otherwise.
pub fn status_from(brightness: i32, hdr: i32) -> (r: Status)
    ensures
        r == spec_status_from(brightness, hdr),
{
    Status {
        brightness: if brightness >= 0 { Some(brightness as u32) } else { None },
        hdr: if hdr == 0 {
            Some(false)
        } else if hdr == 1 {
            Some(true)
        } else {
            None
        },
    }
}

/// The shared value for a brightness percentage: the percentage, or -1 when
/// the operation failed.
pub fn brightness_value(outcome: Option<u32>) -> (r: i32)
    ensures
        r == spec_brightness_value(outcome),
{
    match outcome {
        Some(p) => p as i32,
        None => -1,
    }
}

/// The shared value for an HDR state.
pub fn hdr_value(enabled: bool) -> (r: i32)
    ensures
        r == spec_hdr_value(enabled),
{
    if enabled { 1 } else { 0 }
}

/// The status read back from the shared values gives back what was recorded: a
/// known percentage (one that fits in an `i32`) and a known HDR state as they
/// were, and a failed brightness operation as unknown.
pub proof fn lemma_shared_values_round_trip(outcome: Option<u32>, enabled: bool)
    requires
        outcome matches Some(p) ==> p <= i32::MAX,
    ensures
        spec_status_from(spec_brightness_value(outcome), spec_hdr_value(enabled)) == (Status {
            brightness: outcome,
            hdr: Some(enabled),
        }),
{
}

/// Whether a tray-icon notification `lparam` opens the context menu: its low
/// word is a context-menu request or a right-button release.
pub fn opens_context_menu(lparam: u32) -> (r: bool)
    ensures
        r == (lparam % 0x10000 == 0x007B || lparam % 0x10000 == 0x0205),
{
    let event = lparam % 0x10000;
    event == 0x007B || event == 0x0205
}

/// The context-menu identifier of the autostart item.
pub const MENU_AUTOSTART: usize = 1001;

/// The context-menu identifier of the exit item.
pub const MENU_EXIT: usize = 1002;

/// A choice made in the tray icon's context menu.
#[derive(Clone, Copy, Debug, PartialEq, Eq, Structural)]
pub enum MenuCommand {
    /// Flip starting with Windows.
    ToggleAutostart,
    /// Quit.
    Exit,
}

/// The menu choice whose identifier the menu returned; none when it was dismissed.
pub fn menu_command(id: usize) -> (r: Option<MenuCommand>)
    ensures
        r == (if id == MENU_AUTOSTART {
            Some(MenuCommand::ToggleAutostart)
        } else if id == MENU_EXIT {
            Some(MenuCommand::Exit)
        } else {
            None::<MenuCommand>
        }),
{
    if id == MENU_AUTOSTART {
        Some(MenuCommand::ToggleAutostart)
    } else if id == MENU_EXIT {
        Some(MenuCommand::Exit)
    } else {
        None
    }
}

/// Whether the point `(x, y)` lies on the tray icon whose rectangle the shell
/// returned with `status`: the query succeeded and the point is inside, the
/// right and bottom edges excluded.
pub fn point_in_icon(status: i32, x: i32, y: i32, left: i32, top: i32, right: i32, bottom: i32) -> (r: bool)
    ensures
        r == (status == 0 && left <= x < right && top <= y < bottom),
{
    status == 0 && x >= left && x < right && y >= top && y < bottom
}

} // verus!
