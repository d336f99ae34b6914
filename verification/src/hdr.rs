//! HDR on the primary display: finding the display-configuration target that
//! drives the primary monitor, reading its HDR state, and toggling it. Like the
//! monitor operations, each is a state machine the caller drives with the
//! display-configuration calls it asks for.
use vstd::prelude::*;

use crate::error::DdcError;
use crate::text::{append_decimal, decimal, decode_null_terminated, eq_ignore_ascii_case, equals_ignore_ascii_case, nul_free, nul_terminated_text};

verus! {

/// The Win32 `ERROR_SUCCESS` status.
pub const ERROR_SUCCESS: u32 = 0;

/// The Win32 `ERROR_INSUFFICIENT_BUFFER` status.
pub const ERROR_INSUFFICIENT_BUFFER: u32 = 122;

/// How many times the active paths are queried while the configuration keeps changing.
pub const PATH_QUERY_ATTEMPTS: u32 = 3;

/// The HDR state of the primary display.
#[derive(Clone, Debug, PartialEq, Eq)]
pub struct HdrState {
    /// The display's friendly name.
    pub display_name: String,
    /// Whether HDR is on.
    pub enabled: bool,
}

/// Turns a Win32 status into a result: success, or an error for `operation`
/// carrying the status as its operating-system cause.
pub fn check_status(operation: &str, status: u32) -> (r: Result<(), DdcError>)
    ensures
        r is Ok <==> status == ERROR_SUCCESS,
        r matches Err(e) ==> e.description() == operation@ && e.has_source() && e.status_code() == Some(status),
{
    if status == ERROR_SUCCESS {
        Ok(())
    } else {
        Err(DdcError::windows_code(operation, status))
    }
}

/// Which request sets the HDR state: the one matching the query that answered.
#[derive(Clone, Copy, Debug, PartialEq, Eq, Structural)]
pub enum HdrApi {
    /// The Windows 11 HDR request.
    Modern,
    /// The advanced-color request of earlier versions.
    Legacy,
}

/// Reads `(supported, enabled)` from the flags of the Windows 11 advanced-color
/// query: bits 4 and 5.
pub fn modern_flags(flags: u32) -> (r: (bool, bool))
    ensures
        r == ((flags / 16) % 2 == 1, (flags / 32) % 2 == 1),
{
    ((flags / 16) % 2 == 1, (flags / 32) % 2 == 1)
}

/// Reads `(supported, enabled)` from the flags of the legacy advanced-color
/// query: bits 0 and 1.
pub fn legacy_flags(flags: u32) -> (r: (bool, bool))
    ensures
        r == (flags % 2 == 1, (flags / 2) % 2 == 1),
{
    (flags % 2 == 1, (flags / 2) % 2 == 1)
}

/// The flags value that requests HDR on or off.
pub fn hdr_request_flags(enabled: bool) -> (r: u32)
    ensures
        r == (if enabled { 1u32 } else { 0u32 }),
{
    if enabled { 1 } else { 0 }
}

/// The name shown for target `id` when its friendly name cannot be read.
pub open spec fn fallback_name(id: u32) -> Seq<char> {
    "Display "@ + decimal(id as nat)
}

/// The display name of a target: its friendly name (up to the first NUL) when
/// the name query succeeded, else `Display {id}`.
pub fn display_name(status: u32, friendly: &[u16], id: u32) -> (r: String)
    ensures
        status == ERROR_SUCCESS ==> r@ == nul_terminated_text(friendly@) && nul_free(r@),
        status != ERROR_SUCCESS ==> r@ == fallback_name(id),
{
    if status == ERROR_SUCCESS {
        decode_null_terminated(friendly)
    } else {
        let mut text = "Display ".to_owned();
        append_decimal(&mut text, id as u64);
        text
    }
}

/// What the caller performs next.
#[derive(Debug, Clone, Copy, PartialEq, Eq, Structural)]
pub enum HdrAction {
    /// Ask for the buffer sizes of the active display paths.
    QueryBufferSizes,
    /// Query the active display paths into buffers of those sizes.
    QueryPaths,
    /// Read the GDI device name of the primary monitor.
    QueryPrimaryDevice,
    /// Read the GDI device name of the source of active path `path`.
    QuerySourceName { path: usize },
    /// Query the Windows 11 advanced-color state of the target of `path`.
    QueryModernColor { path: usize },
    /// Query the legacy advanced-color state of the target of `path`.
    QueryLegacyColor { path: usize },
    /// Read the friendly name of the target of `path`.
    QueryTargetName { path: usize },
    /// Set HDR of the target of `path` with request `api` and flags value `flags`.
    SetHdr { path: usize, api: HdrApi, flags: u32 },
    /// Over; the result is ready.
    Finish,
}

/// What happened when the caller performed the last action.
pub enum HdrEvent {
    /// The status of the buffer-size query.
    BufferSizes { status: u32 },
    /// The status of the path query and how many paths it returned.
    Paths { status: u32, count: usize },
    /// The primary monitor's device name, or why it could not be read.
    PrimaryDevice(Result<String, DdcError>),
    /// The status of a source-name query and the name buffer.
    SourceName { status: u32, name: Vec<u16> },
    /// The status and flags of a Windows 11 advanced-color query.
    ModernColor { status: u32, flags: u32 },
    /// The status and flags of a legacy advanced-color query.
    LegacyColor { status: u32, flags: u32 },
    /// The status of a target-name query, the name buffer, and the target id.
    TargetName { status: u32, name: Vec<u16>, id: u32 },
    /// The status of the request that sets HDR.
    HdrSet { status: u32 },
}

/// Where an HDR request stands.
pub enum HdrPhase {
    /// Waiting for the buffer sizes; `attempt` earlier rounds found the
    /// configuration changing.
    BufferSizes { attempt: u32 },
    /// Waiting for the paths.
    Paths { attempt: u32 },
    /// Waiting for the primary device name; `count` paths are active.
    Primary { count: usize },
    /// Waiting for the source name of `path`.
    Source { count: usize, path: usize, primary: String },
    /// Waiting for the Windows 11 advanced-color state of `path`.
    Modern { path: usize },
    /// Waiting for the legacy advanced-color state of `path`.
    Legacy { path: usize },
    /// Waiting for the friendly name of `path`, whose HDR state is `enabled`.
    Name { path: usize, enabled: bool, api: HdrApi },
    /// Waiting for the outcome of setting HDR of `path` to `enabled`.
    Setting { path: usize, name: String, enabled: bool },
    /// Over.
    Finished,
}

/// An HDR request in progress: reading the state, or toggling it.
pub struct HdrRequest {
    /// Whether the request toggles HDR after reading the state.
    pub toggle: bool,
    /// Where it stands.
    pub phase: HdrPhase,
    /// The result, once finished.
    pub result: Option<Result<HdrState, DdcError>>,
}

/// Whether `result` is an error with message `text` that carries an
/// operating-system cause exactly when `sourced`.
pub open spec fn hdr_failed_with(result: Option<Result<HdrState, DdcError>>, text: Seq<char>, sourced: bool) -> bool {
    match result {
        Some(Err(e)) => e.description() == text && e.has_source() == sourced,
        _ => false,
    }
}

/// Whether `result` is an error with message `text` made for the failed Windows
/// status `status`, which it keeps, with the operating-system cause made from it.
pub open spec fn hdr_failed_with_status(result: Option<Result<HdrState, DdcError>>, text: Seq<char>, status: u32) -> bool {
    match result {
        Some(Err(e)) => e.description() == text && e.has_source() && e.status_code() == Some(status),
        _ => false,
    }
}

/// Whether `result` is the state `name` with HDR `enabled`.
pub open spec fn hdr_reports(result: Option<Result<HdrState, DdcError>>, name: Seq<char>, enabled: bool) -> bool {
    match result {
        Some(Ok(state)) => state.display_name@ == name && state.enabled == enabled,
        _ => false,
    }
}

/// Whether a source-name reply names the primary device `primary`, ignoring ASCII case.
pub open spec fn names_primary(status: u32, name: Seq<u16>, primary: Seq<char>) -> bool {
    status == ERROR_SUCCESS && eq_ignore_ascii_case(nul_terminated_text(name), primary)
}

impl HdrRequest {
    /// Whether the request's bookkeeping is consistent.
    pub open spec fn wf(&self) -> bool {
        &&& (self.phase is Finished <==> self.result is Some)
        &&& self.phase matches HdrPhase::BufferSizes { attempt } ==> attempt < PATH_QUERY_ATTEMPTS
        &&& self.phase matches HdrPhase::Paths { attempt } ==> attempt < PATH_QUERY_ATTEMPTS
        &&& self.phase matches HdrPhase::Source { count, path, .. } ==> path < count
        &&& self.phase matches HdrPhase::Setting { .. } ==> self.toggle
    }

    /// Whether `event` answers the action the current phase waits on.
    pub open spec fn accepts(&self, event: &HdrEvent) -> bool {
        match self.phase {
            HdrPhase::BufferSizes { .. } => event is BufferSizes,
            HdrPhase::Paths { .. } => event is Paths,
            HdrPhase::Primary { .. } => event is PrimaryDevice,
            HdrPhase::Source { .. } => event is SourceName,
            HdrPhase::Modern { .. } => event is ModernColor,
            HdrPhase::Legacy { .. } => event is LegacyColor,
            HdrPhase::Name { .. } => event is TargetName,
            HdrPhase::Setting { .. } => event is HdrSet,
            HdrPhase::Finished => false,
        }
    }

    fn start(toggle: bool) -> (r: (Self, HdrAction))
        ensures
            r.0.wf(),
            r.0.toggle == toggle,
            r.0.phase == (HdrPhase::BufferSizes { attempt: 0 }),
            r.1 == HdrAction::QueryBufferSizes,
    {
        (HdrRequest { toggle, phase: HdrPhase::BufferSizes { attempt: 0 }, result: None }, HdrAction::QueryBufferSizes)
    }

    fn finish(self, result: Result<HdrState, DdcError>) -> (r: (Self, HdrAction))
        ensures
            r.0.wf(),
            r.0.toggle == self.toggle,
            r.0.phase is Finished,
            r.0.result == Some(result),
            r.1 == HdrAction::Finish,
    {
        (HdrRequest { toggle: self.toggle, phase: HdrPhase::Finished, result: Some(result) }, HdrAction::Finish)
    }

    /// After the HDR state of `path` was read: unsupported is an error,
    /// otherwise the target's friendly name is asked.
    fn after_color(self, path: usize, supported: bool, enabled: bool, api: HdrApi) -> (r: (Self, HdrAction))
        ensures
            r.0.wf(),
            r.0.toggle == self.toggle,
            !supported ==> r.1 == HdrAction::Finish && hdr_failed_with(r.0.result, "the primary display does not support HDR"@, false),
            supported ==> r.0.phase == (HdrPhase::Name { path, enabled, api }) && r.1 == (HdrAction::QueryTargetName { path }),
    {
        if !supported {
            self.finish(Err(DdcError::message("the primary display does not support HDR")))
        } else {
            (HdrRequest { toggle: self.toggle, phase: HdrPhase::Name { path, enabled, api }, result: None }, HdrAction::QueryTargetName { path })
        }
    }

    /// Takes what happened after the last action and decides the next one.
    ///
    /// The active paths are queried, again while the configuration keeps
    /// changing, up to `PATH_QUERY_ATTEMPTS` rounds; then the primary monitor's
    /// device name is read and the paths are searched, in order, for one whose
    /// source has that name (ignoring ASCII case). The first such path is the
    /// target: its HDR state is read with the Windows 11 query, or the legacy one
    /// when that fails; an unsupported target is an error; its friendly name is
    /// read, falling back to `Display {id}`. Reading the state ends there; a
    /// toggle then asks for the opposite state with the matching request.
    pub fn step(self, event: HdrEvent) -> (r: (Self, HdrAction))
        requires
            self.wf(),
            self.accepts(&event),
        ensures
            r.0.wf(),
            r.0.phase is Finished <==> r.1 == HdrAction::Finish,
            r.0.toggle == self.toggle,
            match (self.phase, event) {
                (HdrPhase::BufferSizes { attempt }, HdrEvent::BufferSizes { status }) => if status != ERROR_SUCCESS {
                    r.1 == HdrAction::Finish && hdr_failed_with_status(r.0.result, "GetDisplayConfigBufferSizes failed"@, status)
                } else {
                    r.0.phase == (HdrPhase::Paths { attempt }) && r.1 == HdrAction::QueryPaths
                },
                (HdrPhase::Paths { attempt }, HdrEvent::Paths { status, count }) => if status == ERROR_INSUFFICIENT_BUFFER {
                    if attempt + 1 < PATH_QUERY_ATTEMPTS {
                        r.0.phase == (HdrPhase::BufferSizes { attempt: (attempt + 1) as u32 }) && r.1 == HdrAction::QueryBufferSizes
                    } else {
                        r.1 == HdrAction::Finish && hdr_failed_with(r.0.result, "display configuration kept changing during enumeration"@, false)
                    }
                } else if status != ERROR_SUCCESS {
                    r.1 == HdrAction::Finish && hdr_failed_with_status(r.0.result, "QueryDisplayConfig failed"@, status)
                } else {
                    r.0.phase == (HdrPhase::Primary { count }) && r.1 == HdrAction::QueryPrimaryDevice
                },
                (HdrPhase::Primary { count }, HdrEvent::PrimaryDevice(Err(e))) => r.1 == HdrAction::Finish && r.0.result == Some(Err::<HdrState, DdcError>(e)),
                (HdrPhase::Primary { count }, HdrEvent::PrimaryDevice(Ok(primary))) => if count == 0 {
                    r.1 == HdrAction::Finish && hdr_failed_with(r.0.result, "the primary display is not active or does not support HDR"@, false)
                } else {
                    r.0.phase matches HdrPhase::Source { count: c, path, primary: p } && c == count && path == 0 && p@ == primary@
                        && r.1 == (HdrAction::QuerySourceName { path: 0 })
                },
                (HdrPhase::Source { count, path, primary }, HdrEvent::SourceName { status, name }) => if names_primary(status, name@, primary@) {
                    r.0.phase == (HdrPhase::Modern { path }) && r.1 == (HdrAction::QueryModernColor { path })
                } else if path + 1 < count {
                    r.0.phase matches HdrPhase::Source { count: c, path: next, primary: p } && c == count && next == path + 1 && p@ == primary@
                        && r.1 == (HdrAction::QuerySourceName { path: (path + 1) as usize })
                } else {
                    r.1 == HdrAction::Finish && hdr_failed_with(r.0.result, "the primary display is not active or does not support HDR"@, false)
                },
                (HdrPhase::Modern { path }, HdrEvent::ModernColor { status, flags }) => if status == ERROR_SUCCESS {
                    if (flags / 16) % 2 == 1 {
                        r.0.phase == (HdrPhase::Name { path, enabled: (flags / 32) % 2 == 1, api: HdrApi::Modern }) && r.1 == (HdrAction::QueryTargetName { path })
                    } else {
                        r.1 == HdrAction::Finish && hdr_failed_with(r.0.result, "the primary display does not support HDR"@, false)
                    }
                } else {
                    r.0.phase == (HdrPhase::Legacy { path }) && r.1 == (HdrAction::QueryLegacyColor { path })
                },
                (HdrPhase::Legacy { path }, HdrEvent::LegacyColor { status, flags }) => if status != ERROR_SUCCESS {
                    r.1 == HdrAction::Finish && hdr_failed_with_status(r.0.result, "DisplayConfigGetDeviceInfo(HDR) failed"@, status)
                } else if flags % 2 == 1 {
                    r.0.phase == (HdrPhase::Name { path, enabled: (flags / 2) % 2 == 1, api: HdrApi::Legacy }) && r.1 == (HdrAction::QueryTargetName { path })
                } else {
                    r.1 == HdrAction::Finish && hdr_failed_with(r.0.result, "the primary display does not support HDR"@, false)
                },
                (HdrPhase::Name { path, enabled, api }, HdrEvent::TargetName { status, name, id }) => {
                    let shown = if status == ERROR_SUCCESS {
                        nul_terminated_text(name@)
                    } else {
                        fallback_name(id)
                    };
                    if self.toggle {
                        r.0.phase matches HdrPhase::Setting { path: p, name: n, enabled: e } && p == path && e == !enabled
                            && n@ == shown
                            && r.1 == (HdrAction::SetHdr { path, api, flags: if enabled { 0u32 } else { 1u32 } })
                    } else {
                        r.1 == HdrAction::Finish && hdr_reports(r.0.result, shown, enabled)
                    }
                },
                (HdrPhase::Setting { path, name, enabled }, HdrEvent::HdrSet { status }) => if status != ERROR_SUCCESS {
                    r.1 == HdrAction::Finish && hdr_failed_with_status(r.0.result, "DisplayConfigSetDeviceInfo(HDR) failed"@, status)
                } else {
                    r.1 == HdrAction::Finish && hdr_reports(r.0.result, name@, enabled)
                },
                _ => false,
            },
    {
        let toggle = self.toggle;
        match (self.phase, event) {
            (HdrPhase::BufferSizes { attempt }, HdrEvent::BufferSizes { status }) => {
                let request = HdrRequest { toggle, phase: HdrPhase::Finished, result: None };
                match check_status("GetDisplayConfigBufferSizes failed", status) {
                    Err(e) => request.finish(Err(e)),
                    Ok(()) => (HdrRequest { toggle, phase: HdrPhase::Paths { attempt }, result: None }, HdrAction::QueryPaths),
                }
            },
            (HdrPhase::Paths { attempt }, HdrEvent::Paths { status, count }) => {
                let request = HdrRequest { toggle, phase: HdrPhase::Finished, result: None };
                if status == ERROR_INSUFFICIENT_BUFFER {
                    if attempt + 1 < PATH_QUERY_ATTEMPTS {
                        (HdrRequest { toggle, phase: HdrPhase::BufferSizes { attempt: attempt + 1 }, result: None }, HdrAction::QueryBufferSizes)
                    } else {
                        request.finish(Err(DdcError::message("display configuration kept changing during enumeration")))
                    }
                } else {
                    match check_status("QueryDisplayConfig failed", status) {
                        Err(e) => request.finish(Err(e)),
                        Ok(()) => (HdrRequest { toggle, phase: HdrPhase::Primary { count }, result: None }, HdrAction::QueryPrimaryDevice),
                    }
                }
            },
            (HdrPhase::Primary { count }, HdrEvent::PrimaryDevice(outcome)) => {
                let request = HdrRequest { toggle, phase: HdrPhase::Finished, result: None };
                match outcome {
                    Err(e) => request.finish(Err(e)),
                    Ok(primary) => {
                        if count == 0 {
                            request.finish(Err(DdcError::message("the primary display is not active or does not support HDR")))
                        } else {
                            (HdrRequest { toggle, phase: HdrPhase::Source { count, path: 0, primary }, result: None }, HdrAction::QuerySourceName { path: 0 })
                        }
                    },
                }
            },
            (HdrPhase::Source { count, path, primary }, HdrEvent::SourceName { status, name }) => {
                let request = HdrRequest { toggle, phase: HdrPhase::Finished, result: None };
                let matches = if status == ERROR_SUCCESS {
                    let source = decode_null_terminated(name.as_slice());
                    equals_ignore_ascii_case(source.as_str(), primary.as_str())
                } else {
                    false
                };
                if matches {
                    (HdrRequest { toggle, phase: HdrPhase::Modern { path }, result: None }, HdrAction::QueryModernColor { path })
                } else if path + 1 < count {
                    let next = path + 1;
                    (HdrRequest { toggle, phase: HdrPhase::Source { count, path: next, primary }, result: None }, HdrAction::QuerySourceName { path: next })
                } else {
                    request.finish(Err(DdcError::message("the primary display is not active or does not support HDR")))
                }
            },
            (HdrPhase::Modern { path }, HdrEvent::ModernColor { status, flags }) => {
                let request = HdrRequest { toggle, phase: HdrPhase::Finished, result: None };
                if status == ERROR_SUCCESS {
                    let (supported, enabled) = modern_flags(flags);
                    request.after_color(path, supported, enabled, HdrApi::Modern)
                } else {
                    (HdrRequest { toggle, phase: HdrPhase::Legacy { path }, result: None }, HdrAction::QueryLegacyColor { path })
                }
            },
            (HdrPhase::Legacy { path }, HdrEvent::LegacyColor { status, flags }) => {
                let request = HdrRequest { toggle, phase: HdrPhase::Finished, result: None };
                match check_status("DisplayConfigGetDeviceInfo(HDR) failed", status) {
                    Err(e) => request.finish(Err(e)),
                    Ok(()) => {
                        let (supported, enabled) = legacy_flags(flags);
                        request.after_color(path, supported, enabled, HdrApi::Legacy)
                    },
                }
            },
            (HdrPhase::Name { path, enabled, api }, HdrEvent::TargetName { status, name, id }) => {
                let request = HdrRequest { toggle, phase: HdrPhase::Finished, result: None };
                let shown = display_name(status, name.as_slice(), id);
                if toggle {
                    let target = !enabled;
                    (
                        HdrRequest { toggle, phase: HdrPhase::Setting { path, name: shown, enabled: target }, result: None },
                        HdrAction::SetHdr { path, api, flags: hdr_request_flags(target) },
                    )
                } else {
                    request.finish(Ok(HdrState { display_name: shown, enabled }))
                }
            },
            (HdrPhase::Setting { path, name, enabled }, HdrEvent::HdrSet { status }) => {
                let request = HdrRequest { toggle, phase: HdrPhase::Finished, result: None };
                match check_status("DisplayConfigSetDeviceInfo(HDR) failed", status) {
                    Err(e) => request.finish(Err(e)),
                    Ok(()) => request.finish(Ok(HdrState { display_name: name, enabled })),
                }
            },
            (_, _) => {
                proof {
                    assert(false);
                }
                let request = HdrRequest { toggle, phase: HdrPhase::Finished, result: None };
                request.finish(Err(DdcError::message("unexpected event")))
            },
        }
    }
}

/// Reads the HDR state of the primary display.
pub fn state() -> (r: (HdrRequest, HdrAction))
    ensures
        r.0.wf(),
        !r.0.toggle,
        r.0.phase == (HdrPhase::BufferSizes { attempt: 0 }),
        r.1 == HdrAction::QueryBufferSizes,
{
    HdrRequest::start(false)
}

/// Toggles HDR on the primary display.
pub fn toggle() -> (r: (HdrRequest, HdrAction))
    ensures
        r.0.wf(),
        r.0.toggle,
        r.0.phase == (HdrPhase::BufferSizes { attempt: 0 }),
        r.1 == HdrAction::QueryBufferSizes,
{
    HdrRequest::start(true)
}

} // verus!
