use legion_rgb::driver::{
    build_c2_payload, build_legacy_payload, c2_brightness_byte, c2_handshake_codes, c2_handshake_payload,
    classify_write_error, fallback_candidates, fallback_protocol, known_device_infos, legacy_handshake_payload,
    name_or_unknown, refresh_action, refresh_delay_ms, refresh_next, refresh_start, scan_it829x_devices,
    select_known_device, BaseEffects, DeviceInfo, LightingState, ProtocolType, RangeError, RangeErrorKind,
    RefreshAction, RefreshStep, WriteOutcome, BUSY_RETRY_DELAY_MS, transition_starts, transition_step,
    TransitionAction,
};

fn dev(vendor_id: u16, product_id: u16, usage_page: u16, usage: u16) -> DeviceInfo {
    DeviceInfo {
        vendor_id,
        product_id,
        usage_page,
        usage,
        manufacturer: "ITE".to_string(),
        product: "kbd".to_string(),
    }
}

#[test]
fn legacy_payload_of_initial_state() {
    let s = LightingState::initial();
    let p = build_legacy_payload(&s);
    assert_eq!(p[0], 0xcc);
    assert_eq!(p[1], 0x16);
    assert_eq!(p[2], 0x01);
    assert_eq!(p[3], 1);
    assert_eq!(p[4], 1);
    assert!(p[5..].iter().all(|&b| b == 0));
}

#[test]
fn legacy_payload_carries_colors_in_static_and_breath() {
    let mut s = LightingState::initial();
    let colors = [1, 2, 3, 4, 5, 6, 7, 8, 9, 10, 11, 12];
    assert!(s.set_colors_to(&colors));
    let p = build_legacy_payload(&s);
    assert_eq!(&p[5..17], &colors);
    s.set_effect(BaseEffects::Breath);
    let p = build_legacy_payload(&s);
    assert_eq!(p[2], 0x03);
    assert_eq!(&p[5..17], &colors);
}

#[test]
fn legacy_payload_of_waves_and_smooth() {
    let mut s = LightingState::initial();
    s.set_colors_to(&[9; 12]);
    s.set_effect(BaseEffects::LeftWave);
    let p = build_legacy_payload(&s);
    assert_eq!(p[2], 0x04);
    assert_eq!(p[19], 1);
    assert_eq!(p[18], 0);
    assert!(p[5..17].iter().all(|&b| b == 0));
    s.set_effect(BaseEffects::RightWave);
    let p = build_legacy_payload(&s);
    assert_eq!(p[2], 0x04);
    assert_eq!(p[18], 1);
    assert_eq!(p[19], 0);
    s.set_effect(BaseEffects::Smooth);
    let p = build_legacy_payload(&s);
    assert_eq!(p[2], 0x06);
    assert_eq!(p[18], 0);
    assert_eq!(p[19], 0);
}

#[test]
fn speed_range_is_enforced() {
    let mut s = LightingState::initial();
    assert_eq!(s.set_speed(0), Err(RangeError { kind: RangeErrorKind::Speed }));
    assert_eq!(s.set_speed(5), Err(RangeError { kind: RangeErrorKind::Speed }));
    assert_eq!(s.speed, 1);
    assert_eq!(s.set_speed(4), Ok(()));
    assert_eq!(s.speed, 4);
    assert_eq!(build_legacy_payload(&s)[3], 4);
}

#[test]
fn brightness_range_is_enforced() {
    let mut s = LightingState::initial();
    assert_eq!(s.set_brightness(0), Err(RangeError { kind: RangeErrorKind::Brightness }));
    assert_eq!(s.set_brightness(3), Err(RangeError { kind: RangeErrorKind::Brightness }));
    assert_eq!(s.brightness, 1);
    assert_eq!(s.set_brightness(2), Ok(()));
    assert_eq!(s.brightness, 2);
}

#[test]
fn zone_setter_changes_one_zone() {
    let mut s = LightingState::initial();
    assert_eq!(s.set_zone_by_index(4, [1, 2, 3]), Err(RangeError { kind: RangeErrorKind::Zone }));
    assert_eq!(s.rgb_values, [0; 12]);
    assert_eq!(s.set_zone_by_index(2, [10, 20, 30]), Ok(()));
    assert_eq!(s.rgb_values, [0, 0, 0, 0, 0, 0, 10, 20, 30, 0, 0, 0]);
    assert_eq!(s.set_zone_by_index(0, [7, 8, 9]), Ok(()));
    assert_eq!(s.rgb_values, [7, 8, 9, 0, 0, 0, 10, 20, 30, 0, 0, 0]);
}

#[test]
fn colors_are_refused_outside_static_and_breath() {
    let mut s = LightingState::initial();
    s.set_effect(BaseEffects::Smooth);
    assert!(!s.accepts_colors());
    assert!(!s.set_colors_to(&[5; 12]));
    assert!(!s.solid_set_colors_to([1, 2, 3]));
    assert_eq!(s.rgb_values, [0; 12]);
    s.set_effect(BaseEffects::Static);
    assert!(s.solid_set_colors_to([1, 2, 3]));
    assert_eq!(s.rgb_values, [1, 2, 3, 1, 2, 3, 1, 2, 3, 1, 2, 3]);
}

#[test]
fn c2_payloads() {
    let mut s = LightingState::initial();
    s.set_colors_to(&[1, 2, 3, 4, 5, 6, 7, 8, 9, 10, 11, 12]);
    let p = build_c2_payload(&s, 0x0b, false);
    assert_eq!(&p[0..4], &[0x01, 0x0b, 0x01, 0x01]);
    assert_eq!(&p[4..16], &[1, 2, 3, 4, 5, 6, 7, 8, 9, 10, 11, 12]);
    assert_eq!(p[32], 0);
    let p = build_c2_payload(&s, 0x02, true);
    assert_eq!(p[1], 0x02);
    assert_eq!(p[32], 50);
    s.set_brightness(2).unwrap();
    assert_eq!(build_c2_payload(&s, 0x0b, true)[32], 100);
    assert_eq!(c2_brightness_byte(1), 50);
    assert_eq!(c2_brightness_byte(2), 100);
    assert_eq!(c2_brightness_byte(7), 100);
}

#[test]
fn legacy_refresh_is_one_feature_report() {
    let s = LightingState::initial();
    let step = refresh_start(ProtocolType::Legacy);
    assert_eq!(step, RefreshStep::LegacyReport);
    match refresh_action(&s, step) {
        RefreshAction::FeatureReport(p) => assert_eq!(p, build_legacy_payload(&s)),
        _ => panic!("legacy refresh must send a feature report"),
    }
    assert_eq!(refresh_next(step, WriteOutcome::Failed), RefreshStep::Done);
    assert!(matches!(refresh_action(&s, RefreshStep::Done), RefreshAction::Finish));
}

#[test]
fn c2_refresh_with_fallback_and_busy_retry() {
    let s = LightingState::initial();
    let mut step = refresh_start(ProtocolType::C2);
    assert_eq!(step, RefreshStep::C2Primary);
    step = refresh_next(step, WriteOutcome::Failed);
    assert_eq!(step, RefreshStep::C2Fallback);
    match refresh_action(&s, step) {
        RefreshAction::Write(p) => assert_eq!(p[1], 0x02),
        _ => panic!("expected a write"),
    }
    step = refresh_next(step, WriteOutcome::Written);
    assert_eq!(step, RefreshStep::C2Final { command: 0x02 });
    match refresh_action(&s, step) {
        RefreshAction::Write(p) => assert_eq!(p, build_c2_payload(&s, 0x02, true)),
        _ => panic!("expected a write"),
    }
    step = refresh_next(step, WriteOutcome::Busy);
    assert_eq!(step, RefreshStep::C2Retry { command: 0x02 });
    assert_eq!(refresh_delay_ms(step), BUSY_RETRY_DELAY_MS);
    assert_eq!(refresh_next(step, WriteOutcome::Busy), RefreshStep::Done);
}

#[test]
fn c2_refresh_happy_path() {
    let mut step = refresh_start(ProtocolType::C2);
    step = refresh_next(step, WriteOutcome::Written);
    assert_eq!(step, RefreshStep::C2Final { command: 0x0b });
    assert_eq!(refresh_delay_ms(step), 0);
    assert_eq!(refresh_next(step, WriteOutcome::Written), RefreshStep::Done);
    assert_eq!(refresh_next(step, WriteOutcome::Failed), RefreshStep::Done);
}

#[test]
fn busy_errors_are_recognised() {
    assert_eq!(classify_write_error("hidapi error: (0x000003E5) Overlapped I/O"), WriteOutcome::Busy);
    assert_eq!(classify_write_error("operation in progress"), WriteOutcome::Busy);
    assert_eq!(classify_write_error("device disconnected"), WriteOutcome::Failed);
    assert_eq!(classify_write_error(""), WriteOutcome::Failed);
}

#[test]
fn handshake_reports() {
    assert_eq!(c2_handshake_codes(), [0x01, 0x08, 0x02, 0x04]);
    let p = c2_handshake_payload(0x08);
    assert_eq!(&p[0..4], &[0x01, 0x01, 0x08, 0x01]);
    assert!(p[4..].iter().all(|&b| b == 0));
    let p = legacy_handshake_payload();
    assert_eq!(&p[0..3], &[0x00, 0x02, 0x01]);
    assert!(p[3..].iter().all(|&b| b == 0));
}

#[test]
fn known_table_order() {
    let t = known_device_infos();
    assert_eq!(t[0], (0x048d, 0xc993, 0xff89, 0x00cc, ProtocolType::Legacy));
    assert_eq!(t[12], (0x048d, 0xc993, 0xffc2, 0x0004, ProtocolType::C2));
    assert_eq!(t[17], (0x048d, 0xc996, 0xff89, 0x0007, ProtocolType::Legacy));
}

#[test]
fn known_device_selection_respects_priority() {
    let devices = vec![
        dev(0x1234, 0x0001, 0x0001, 0x0001),
        dev(0x048d, 0xc996, 0xffc2, 0x0004),
        dev(0x048d, 0xc993, 0xffc2, 0x0004),
        dev(0x048d, 0xc996, 0xff89, 0x00cc),
    ];
    // Comparing usages: the legacy entry for 0xc996 comes first in the table.
    assert_eq!(select_known_device(&devices, true), Some((1, 3)));
    // Comparing vendor and product only: the first table entry, 0xc993, matches device 2.
    assert_eq!(select_known_device(&devices, false), Some((0, 2)));
    assert_eq!(select_known_device(&vec![dev(0x048d, 0x1111, 0xff89, 0x00cc)], false), None);
}

#[test]
fn fallback_guessing() {
    assert_eq!(fallback_protocol(0xffc2, 0x0004), Some(ProtocolType::C2));
    assert_eq!(fallback_protocol(0xff89, 0x00cc), Some(ProtocolType::Legacy));
    assert_eq!(fallback_protocol(0xff89, 0x0010), Some(ProtocolType::Legacy));
    assert_eq!(fallback_protocol(0xff89, 0x0007), None);
    let devices = vec![
        dev(0x048d, 0x1111, 0xff89, 0x0010),
        dev(0x9999, 0x1111, 0xffc2, 0x0004),
        dev(0x048d, 0x2222, 0x0001, 0x0006),
        dev(0x048d, 0x3333, 0xffc2, 0x0004),
    ];
    assert_eq!(fallback_candidates(&devices), vec![(0, ProtocolType::Legacy), (3, ProtocolType::C2)]);
}

#[test]
fn scan_keeps_ite_interfaces() {
    let devices = vec![dev(0x048d, 1, 2, 3), dev(0x1111, 4, 5, 6), dev(0x048d, 7, 8, 9)];
    let found = scan_it829x_devices(&devices);
    assert_eq!(found.len(), 2);
    assert_eq!(found[0].product_id, 1);
    assert_eq!(found[1].product_id, 7);
    assert_eq!(found[1].manufacturer, "ITE");
    assert_eq!(name_or_unknown(None), "Unknown");
    assert_eq!(name_or_unknown(Some("Lenovo".to_string())), "Lenovo");
}

#[test]
fn transitions_run_in_colour_modes_and_end_on_the_target() {
    let mut state = LightingState::initial();
    assert!(transition_starts(&state, false));
    assert!(!transition_starts(&state, true));
    state.set_effect(BaseEffects::Breath);
    assert!(transition_starts(&state, false));
    state.set_effect(BaseEffects::Smooth);
    assert!(!transition_starts(&state, false));
    assert_eq!(transition_step(1, 3, false), TransitionAction::Frame);
    assert_eq!(transition_step(3, 3, false), TransitionAction::Frame);
    assert_eq!(transition_step(4, 3, false), TransitionAction::Snap);
    assert_eq!(transition_step(2, 3, true), TransitionAction::Snap);
    assert_eq!(transition_step(1, 0, false), TransitionAction::Snap);
}
