use brightwheel::hdr::{
    check_status, display_name, hdr_request_flags, legacy_flags, modern_flags, state, toggle, HdrAction,
    HdrApi, HdrEvent, HdrRequest, HdrState, ERROR_INSUFFICIENT_BUFFER,
};
use brightwheel::DdcError;

fn wide(text: &str) -> Vec<u16> {
    text.encode_utf16().chain([0, 65, 66]).collect()
}

fn finished(request: HdrRequest) -> Result<HdrState, String> {
    request.result.expect("finished").map_err(|error| error.to_string())
}

/// Drives a request through two active paths whose second one drives the
/// primary monitor.
fn up_to_target(request: HdrRequest) -> HdrRequest {
    let (request, action) = request.step(HdrEvent::BufferSizes { status: 0 });
    assert_eq!(action, HdrAction::QueryPaths);
    let (request, action) = request.step(HdrEvent::Paths { status: 0, count: 2 });
    assert_eq!(action, HdrAction::QueryPrimaryDevice);
    let (request, action) = request.step(HdrEvent::PrimaryDevice(Ok("\\\\.\\DISPLAY1".to_owned())));
    assert_eq!(action, HdrAction::QuerySourceName { path: 0 });
    let (request, action) = request.step(HdrEvent::SourceName { status: 0, name: wide("\\\\.\\DISPLAY2") });
    assert_eq!(action, HdrAction::QuerySourceName { path: 1 });
    let (request, action) = request.step(HdrEvent::SourceName { status: 0, name: wide("\\\\.\\display1") });
    assert_eq!(action, HdrAction::QueryModernColor { path: 1 });
    request
}

#[test]
fn reads_the_state_of_the_primary_target() {
    let (request, action) = state();
    assert_eq!(action, HdrAction::QueryBufferSizes);
    let request = up_to_target(request);
    let (request, action) = request.step(HdrEvent::ModernColor { status: 0, flags: 0b11_0000 });
    assert_eq!(action, HdrAction::QueryTargetName { path: 1 });
    let (request, action) = request.step(HdrEvent::TargetName { status: 0, name: wide("LG OLED"), id: 7 });
    assert_eq!(action, HdrAction::Finish);
    assert_eq!(
        finished(request),
        Ok(HdrState { display_name: "LG OLED".to_owned(), enabled: true })
    );
}

#[test]
fn falls_back_to_the_legacy_query_and_the_target_id() {
    let (request, _) = state();
    let request = up_to_target(request);
    let (request, action) = request.step(HdrEvent::ModernColor { status: 87, flags: 0 });
    assert_eq!(action, HdrAction::QueryLegacyColor { path: 1 });
    let (request, action) = request.step(HdrEvent::LegacyColor { status: 0, flags: 0b01 });
    assert_eq!(action, HdrAction::QueryTargetName { path: 1 });
    let (request, _) = request.step(HdrEvent::TargetName { status: 31, name: Vec::new(), id: 264 });
    assert_eq!(
        finished(request),
        Ok(HdrState { display_name: "Display 264".to_owned(), enabled: false })
    );
}

#[test]
fn toggles_with_the_request_of_the_query_that_answered() {
    let (request, _) = toggle();
    let request = up_to_target(request);
    let (request, _) = request.step(HdrEvent::ModernColor { status: 0, flags: 0b01_0000 });
    let (request, action) = request.step(HdrEvent::TargetName { status: 0, name: wide("Dell"), id: 1 });
    assert_eq!(action, HdrAction::SetHdr { path: 1, api: HdrApi::Modern, flags: 1 });
    let (request, action) = request.step(HdrEvent::HdrSet { status: 0 });
    assert_eq!(action, HdrAction::Finish);
    assert_eq!(
        finished(request),
        Ok(HdrState { display_name: "Dell".to_owned(), enabled: true })
    );

    let (request, _) = toggle();
    let request = up_to_target(request);
    let (request, _) = request.step(HdrEvent::ModernColor { status: 1, flags: 0 });
    let (request, _) = request.step(HdrEvent::LegacyColor { status: 0, flags: 0b11 });
    let (request, action) = request.step(HdrEvent::TargetName { status: 0, name: wide("Dell"), id: 1 });
    assert_eq!(action, HdrAction::SetHdr { path: 1, api: HdrApi::Legacy, flags: 0 });
    let (request, _) = request.step(HdrEvent::HdrSet { status: 5 });
    match &request.result {
        Some(Err(error)) => {
            assert_eq!(error.status(), Some(5));
            assert_eq!(error.source().and_then(std::io::Error::raw_os_error), Some(5));
        }
        _ => panic!("a refused HDR request is an error"),
    }
    assert!(finished(request).unwrap_err().starts_with("DisplayConfigSetDeviceInfo(HDR) failed: "));
}

#[test]
fn reports_unsupported_and_missing_targets() {
    let (request, _) = state();
    let request = up_to_target(request);
    let (request, action) = request.step(HdrEvent::ModernColor { status: 0, flags: 0b10_0000 });
    assert_eq!(action, HdrAction::Finish);
    assert_eq!(finished(request), Err("the primary display does not support HDR".to_owned()));

    let (request, _) = state();
    let (request, _) = request.step(HdrEvent::BufferSizes { status: 0 });
    let (request, _) = request.step(HdrEvent::Paths { status: 0, count: 1 });
    let (request, _) = request.step(HdrEvent::PrimaryDevice(Ok("A".to_owned())));
    let (request, action) = request.step(HdrEvent::SourceName { status: 0, name: wide("B") });
    assert_eq!(action, HdrAction::Finish);
    assert_eq!(
        finished(request),
        Err("the primary display is not active or does not support HDR".to_owned())
    );

    let (request, _) = state();
    let (request, _) = request.step(HdrEvent::BufferSizes { status: 0 });
    let (request, _) = request.step(HdrEvent::Paths { status: 0, count: 0 });
    let (request, _) = request.step(HdrEvent::PrimaryDevice(Err(DdcError::message("MonitorFromPoint failed"))));
    assert_eq!(finished(request), Err("MonitorFromPoint failed".to_owned()));
}

#[test]
fn retries_the_path_query_while_the_configuration_changes() {
    let (mut request, _) = state();
    for _ in 0..2 {
        let (next, _) = request.step(HdrEvent::BufferSizes { status: 0 });
        let (next, action) = next.step(HdrEvent::Paths { status: ERROR_INSUFFICIENT_BUFFER, count: 0 });
        assert_eq!(action, HdrAction::QueryBufferSizes);
        request = next;
    }
    let (request, _) = request.step(HdrEvent::BufferSizes { status: 0 });
    let (request, action) = request.step(HdrEvent::Paths { status: ERROR_INSUFFICIENT_BUFFER, count: 0 });
    assert_eq!(action, HdrAction::Finish);
    assert_eq!(
        finished(request),
        Err("display configuration kept changing during enumeration".to_owned())
    );

    let (request, _) = state();
    let (request, _) = request.step(HdrEvent::BufferSizes { status: 0 });
    let (request, _) = request.step(HdrEvent::Paths { status: 87, count: 0 });
    assert!(finished(request).unwrap_err().starts_with("QueryDisplayConfig failed: "));
}

#[test]
fn decodes_flags_and_statuses() {
    assert_eq!(modern_flags(0b11_0000), (true, true));
    assert_eq!(modern_flags(0b01_0000), (true, false));
    assert_eq!(legacy_flags(0b10), (false, true));
    assert_eq!(hdr_request_flags(true), 1);
    assert_eq!(hdr_request_flags(false), 0);
    assert!(check_status("x", 0).is_ok());
    let error = check_status("GetDisplayConfigBufferSizes failed", 87).unwrap_err();
    assert_eq!(error.source().and_then(std::io::Error::raw_os_error), Some(87));
    assert_eq!(display_name(0, &wide("Panel"), 3), "Panel");
    assert_eq!(display_name(1, &wide("Panel"), 3), "Display 3");
}
