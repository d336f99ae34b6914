use std::io;

use brightwheel::ddc::{
    capabilities, change, get, list, percent_to_value, primary_first_order, select,
    validate_percent, value_to_percent, Action, Brightness, BrightnessRequest, CapabilitiesRequest,
    Event, ListRequest, MonitorEntry, DDC_ATTEMPTS, DDC_RETRY_DELAY_MS,
};

#[test]
fn mod_converts_non_hundred_ranges() {
    assert_eq!(value_to_percent(127, 255), 50);
    assert_eq!(percent_to_value(50, 255), 128);
}

#[test]
fn lib_converts_non_hundred_ranges() {
    assert_eq!(value_to_percent(127, 255), 50);
    assert_eq!(percent_to_value(50, 255), 128);
}

#[test]
fn preserves_endpoints_for_common_monitor_ranges() {
    for maximum in [1, 100, 255, 65_535] {
        assert_eq!(value_to_percent(0, maximum), 0);
        assert_eq!(value_to_percent(maximum, maximum), 100);
        assert_eq!(percent_to_value(0, maximum), 0);
        assert_eq!(percent_to_value(100, maximum), maximum);
    }
}

#[test]
fn preserves_endpoints() {
    assert_eq!(value_to_percent(0, 100), 0);
    assert_eq!(value_to_percent(100, 100), 100);
    assert_eq!(percent_to_value(0, 100), 0);
    assert_eq!(percent_to_value(100, 100), 100);
}

#[test]
fn round_trip_stays_within_one_percentage_point() {
    for maximum in [100, 255, 1_000, 65_535] {
        for percent in 0..=100 {
            let round_trip = value_to_percent(percent_to_value(percent, maximum), maximum);
            assert!(round_trip.abs_diff(percent) <= 1);
        }
    }
}

#[test]
fn zero_maximum_converts_to_zero() {
    assert_eq!(
        Brightness {
            current: 25,
            maximum: 0
        }
        .percent(),
        0
    );
}

#[test]
fn validates_percent_before_touching_hardware() {
    assert!(validate_percent(0).is_ok());
    assert!(validate_percent(100).is_ok());
    assert_eq!(
        validate_percent(101)
            .expect_err("101 must be rejected")
            .to_string(),
        "brightness must be between 0 and 100, got 101"
    );
}

#[test]
fn round_trip_holds_on_every_range_from_thirty_four_steps() {
    for maximum in 34..=400u32 {
        for percent in 0..=100 {
            let back = value_to_percent(percent_to_value(percent, maximum), maximum);
            assert!(back.abs_diff(percent) <= 1, "{percent} of {maximum}");
        }
    }
    // Below that the round trip can drift further.
    assert_eq!(value_to_percent(percent_to_value(30, 1), 1), 0);
}

#[test]
fn conversions_truncate_like_the_original_on_oversized_inputs() {
    assert_eq!(value_to_percent(u32::MAX, 1), (u64::from(u32::MAX) * 100) as u32);
    assert_eq!(percent_to_value(200, 100), 200);
}

#[test]
fn select_reports_the_monitor_count() {
    assert_eq!(select(1, 2).unwrap(), 1);
    assert_eq!(
        select(3, 2).unwrap_err().to_string(),
        "monitor index 3 is out of range; found 2 physical monitor(s)"
    );
}

#[test]
fn primary_monitors_are_listed_first_in_order() {
    assert_eq!(
        primary_first_order(&vec![false, true, false, true]),
        vec![1, 3, 0, 2]
    );
    assert_eq!(primary_first_order(&vec![]), Vec::<usize>::new());
}

fn entries(count: usize) -> Vec<MonitorEntry> {
    (0..count)
        .map(|i| MonitorEntry {
            description: format!("Monitor {i}"),
            primary: i == 0,
        })
        .collect()
}

fn failed() -> io::Error {
    io::Error::from_raw_os_error(31)
}

fn result(request: BrightnessRequest) -> Result<Brightness, String> {
    match request.result {
        Some(Ok(b)) => Ok(b),
        Some(Err(e)) => Err(e.to_string()),
        None => panic!("not finished"),
    }
}

#[test]
fn get_enumerates_then_reads_the_selected_monitor() {
    let (request, action) = get(1);
    assert_eq!(action, Action::Enumerate);
    let (request, action) = request.step(Event::Enumerated(Ok(entries(2))));
    assert_eq!(action, Action::Read { monitor: 1, delay_ms: 0 });
    let reading = Brightness { current: 40, maximum: 80 };
    let (request, action) = request.step(Event::Read(Ok(reading)));
    assert_eq!(action, Action::Finish);
    assert_eq!(result(request), Ok(reading));
}

#[test]
fn get_reports_enumeration_and_index_errors() {
    let (request, _) = get(0);
    let (request, action) = request.step(Event::Enumerated(Ok(Vec::new())));
    assert_eq!(action, Action::Finish);
    assert_eq!(result(request), Err("no physical monitors were found".to_owned()));

    let (request, _) = get(4);
    let (request, _) = request.step(Event::Enumerated(Ok(entries(1))));
    assert_eq!(
        result(request),
        Err("monitor index 4 is out of range; found 1 physical monitor(s)".to_owned())
    );
}

#[test]
fn reads_are_retried_five_times_with_a_pause() {
    let (request, _) = get(0);
    let (mut request, mut action) = request.step(Event::Enumerated(Ok(entries(1))));
    for attempt in 1..DDC_ATTEMPTS {
        let (next, next_action) = request.step(Event::Read(Err(failed())));
        assert_eq!(next_action, Action::Read { monitor: 0, delay_ms: DDC_RETRY_DELAY_MS }, "{attempt}");
        request = next;
        action = next_action;
    }
    assert_eq!(action, Action::Read { monitor: 0, delay_ms: 75 });
    let (request, action) = request.step(Event::Read(Err(io::Error::from_raw_os_error(87))));
    assert_eq!(action, Action::Finish);
    match &request.result {
        Some(Err(error)) => assert_eq!(error.source().and_then(io::Error::raw_os_error), Some(87)),
        _ => panic!("the last failed read ends the operation"),
    }
    let message = result(request).unwrap_err();
    assert!(message.starts_with("GetVCPFeatureAndVCPFeatureReply(0x10) failed: "));
}

#[test]
fn a_zero_maximum_is_an_error() {
    let (request, _) = get(0);
    let (request, _) = request.step(Event::Enumerated(Ok(entries(1))));
    let (request, action) = request.step(Event::Read(Ok(Brightness { current: 3, maximum: 0 })));
    assert_eq!(action, Action::Finish);
    assert_eq!(
        result(request),
        Err("monitor reported zero as the maximum brightness".to_owned())
    );
}

#[test]
fn set_refuses_a_percentage_above_hundred_before_any_hardware_action() {
    let (request, action) = brightwheel::ddc::set(0, 101);
    assert_eq!(action, Action::Finish);
    assert_eq!(
        result(request),
        Err("brightness must be between 0 and 100, got 101".to_owned())
    );
}

#[test]
fn set_converts_into_the_range_just_read_then_reads_back() {
    let (request, action) = brightwheel::ddc::set(0, 50);
    assert_eq!(action, Action::Enumerate);
    let (request, action) = request.step(Event::Enumerated(Ok(entries(1))));
    assert_eq!(action, Action::Read { monitor: 0, delay_ms: 0 });
    let (request, action) = request.step(Event::Read(Ok(Brightness { current: 10, maximum: 255 })));
    assert_eq!(action, Action::Write { monitor: 0, value: 128, delay_ms: 0 });
    let (request, action) = request.step(Event::Written(Err(failed())));
    assert_eq!(action, Action::Write { monitor: 0, value: 128, delay_ms: 75 });
    let (request, action) = request.step(Event::Written(Ok(())));
    assert_eq!(action, Action::Read { monitor: 0, delay_ms: 75 });
    let after = Brightness { current: 128, maximum: 255 };
    let (request, action) = request.step(Event::Read(Ok(after)));
    assert_eq!(action, Action::Finish);
    assert_eq!(result(request), Ok(after));
}

#[test]
fn writes_give_up_after_five_attempts() {
    let (request, _) = brightwheel::ddc::set(0, 20);
    let (request, _) = request.step(Event::Enumerated(Ok(entries(1))));
    let (mut request, _) = request.step(Event::Read(Ok(Brightness { current: 0, maximum: 100 })));
    for _ in 1..DDC_ATTEMPTS {
        request = request.step(Event::Written(Err(failed()))).0;
    }
    let (request, action) = request.step(Event::Written(Err(failed())));
    assert_eq!(action, Action::Finish);
    assert!(result(request).unwrap_err().starts_with("SetVCPFeature(0x10) failed: "));
}

#[test]
fn change_clamps_the_target_and_reads_again_before_writing() {
    let (request, _) = change(0, -30);
    let (request, _) = request.step(Event::Enumerated(Ok(entries(1))));
    let (request, action) = request.step(Event::Read(Ok(Brightness { current: 10, maximum: 100 })));
    assert_eq!(action, Action::Read { monitor: 0, delay_ms: 0 });
    let (request, action) = request.step(Event::Read(Ok(Brightness { current: 10, maximum: 200 })));
    assert_eq!(action, Action::Write { monitor: 0, value: 0, delay_ms: 0 });
    let (_, action) = request.step(Event::Written(Ok(())));
    assert_eq!(action, Action::Read { monitor: 0, delay_ms: 75 });

    let (request, _) = change(0, 30);
    let (request, _) = request.step(Event::Enumerated(Ok(entries(1))));
    let (request, _) = request.step(Event::Read(Ok(Brightness { current: 90, maximum: 100 })));
    let (_, action) = request.step(Event::Read(Ok(Brightness { current: 90, maximum: 100 })));
    assert_eq!(action, Action::Write { monitor: 0, value: 100, delay_ms: 0 });
}

#[test]
fn extreme_deltas_clamp_without_overflow() {
    for (delta, value) in [(i32::MAX, 200), (i32::MIN, 0)] {
        let (request, _) = change(0, delta);
        let (request, _) = request.step(Event::Enumerated(Ok(entries(1))));
        let (request, _) = request.step(Event::Read(Ok(Brightness { current: 50, maximum: 100 })));
        let (_, action) = request.step(Event::Read(Ok(Brightness { current: 50, maximum: 200 })));
        assert_eq!(action, Action::Write { monitor: 0, value, delay_ms: 0 });
    }
}

#[test]
fn a_percentage_beyond_the_i32_range_still_clamps_to_hundred() {
    let (request, _) = change(0, 0);
    let (request, _) = request.step(Event::Enumerated(Ok(entries(1))));
    let (request, action) = request.step(Event::Read(Ok(Brightness { current: 30_000_000, maximum: 1 })));
    assert_eq!(action, Action::Read { monitor: 0, delay_ms: 0 });
    let (_, action) = request.step(Event::Read(Ok(Brightness { current: 0, maximum: 200 })));
    assert_eq!(action, Action::Write { monitor: 0, value: 200, delay_ms: 0 });
}

#[test]
fn failed_operations_write_nothing_more() {
    let (request, _) = brightwheel::ddc::set(0, 50);
    let (request, action) = request.step(Event::Enumerated(Ok(entries(1))));
    assert_eq!(action, Action::Read { monitor: 0, delay_ms: 0 });
    let (request, action) = request.step(Event::Read(Ok(Brightness { current: 1, maximum: 0 })));
    assert_eq!(action, Action::Finish);
    assert!(request.result.is_some());
}

#[test]
fn capabilities_stop_at_the_first_nul() {
    let (request, action) = capabilities(0);
    assert_eq!(action, Action::Enumerate);
    let (request, action) = request.step(Event::Enumerated(Ok(entries(1))));
    assert_eq!(action, Action::QueryCapabilitiesLength { monitor: 0 });
    let (request, action) = request.step(Event::CapabilitiesLength(Ok(8)));
    assert_eq!(action, Action::QueryCapabilities { monitor: 0, length: 8 });
    let (request, action) = request.step(Event::CapabilitiesReply(Ok(b"(vcp)\0xy".to_vec())));
    assert_eq!(action, Action::Finish);
    let request: CapabilitiesRequest = request;
    assert_eq!(request.result.unwrap().unwrap(), "(vcp)");
}

#[test]
fn an_empty_capabilities_string_is_an_error() {
    let (request, _) = capabilities(0);
    let (request, _) = request.step(Event::Enumerated(Ok(entries(1))));
    let (request, action) = request.step(Event::CapabilitiesLength(Ok(0)));
    assert_eq!(action, Action::Finish);
    assert_eq!(
        request.result.unwrap().unwrap_err().to_string(),
        "monitor returned an empty capabilities string"
    );
}

#[test]
fn list_reads_every_monitor_and_keeps_each_outcome() {
    let (request, action) = list();
    assert_eq!(action, Action::Enumerate);
    let (request, action) = request.step(Event::Enumerated(Ok(entries(2))));
    assert_eq!(action, Action::Read { monitor: 0, delay_ms: 0 });
    let (request, action) = request.step(Event::Read(Ok(Brightness { current: 30, maximum: 60 })));
    assert_eq!(action, Action::Read { monitor: 1, delay_ms: 0 });
    let mut request: ListRequest = request;
    for _ in 0..DDC_ATTEMPTS {
        request = request.step(Event::Read(Err(failed()))).0;
    }
    let infos = request.result.unwrap().unwrap();
    assert_eq!(infos.len(), 2);
    assert_eq!(infos[0].index, 0);
    assert_eq!(infos[0].description, "Monitor 0");
    assert!(infos[0].primary);
    assert_eq!(infos[0].brightness.as_ref().unwrap().percent(), 50);
    assert_eq!(infos[1].index, 1);
    assert!(!infos[1].primary);
    assert!(infos[1].brightness.is_err());
}
