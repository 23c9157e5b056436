use legion_rgb::driver::{build_legacy_payload, LightingState};
use legion_rgb::stealth::{
    average_to_four, candidate_label, connect_result, fill, flush_result, hardware_test_message, interface_label, is_lenovo_candidate, join_labels,
    legacy_packet, legacy_pids, loaded_preset_message, map_key_to_zone, output_label, preset_kind, preset_of_lower,
    push_key_event, safe_methods, scan_modes, scan_packet, set_physical_zones, KeyName, PresetKind, RgbColor,
    WriteMethod,
};

#[test]
fn colors() {
    assert_eq!(RgbColor::black(), RgbColor::new(0, 0, 0));
    assert_eq!(RgbColor::white(), RgbColor { r: 255, g: 255, b: 255 });
}

#[test]
fn write_methods() {
    assert_eq!(WriteMethod::FeatureReport(0xCC).report_id(), 0xCC);
    assert_eq!(WriteMethod::OutputReport(0x01).report_id(), 0x01);
    assert_eq!(WriteMethod::FeatureReport(0xCC).label(), "feature 0xCC");
    assert_eq!(WriteMethod::OutputReport(0x07).label(), "output 0x07");
    assert_eq!(safe_methods()[0], WriteMethod::FeatureReport(0xCC));
    assert_eq!(safe_methods()[5], WriteMethod::OutputReport(0xCC));
    assert_eq!(scan_modes(), [0x01, 0x03, 0x04, 0x06]);
}

#[test]
fn candidates() {
    assert!(is_lenovo_candidate(0x048d, 0xc993));
    assert!(is_lenovo_candidate(0x048d, 0xc693));
    assert!(!is_lenovo_candidate(0x048d, 0xc955));
    assert!(!is_lenovo_candidate(0x1234, 0xc993));
    assert_eq!(legacy_pids().len(), 7);
}

#[test]
fn packets() {
    let zones = [RgbColor::new(1, 2, 3), RgbColor::new(4, 5, 6), RgbColor::new(7, 8, 9), RgbColor::new(10, 11, 12)];
    let p = legacy_packet(WriteMethod::OutputReport(0x01), 0x01, 0x01, 0x02, &zones);
    assert_eq!(&p[0..5], &[0x01, 0x16, 0x01, 0x01, 0x02]);
    assert_eq!(&p[5..17], &[1, 2, 3, 4, 5, 6, 7, 8, 9, 10, 11, 12]);
    assert!(p[17..].iter().all(|&b| b == 0));
    let s = scan_packet(WriteMethod::FeatureReport(0x07), 0x03, 0x01, 0x01);
    assert_eq!(&s[0..5], &[0x07, 0x16, 0x03, 0x01, 0x01]);
    assert!(s[5..17].iter().all(|&b| b == 255));
}

#[test]
fn packet_agrees_with_driver_report() {
    let mut st = LightingState::initial();
    st.set_colors_to(&[1, 2, 3, 4, 5, 6, 7, 8, 9, 10, 11, 12]);
    st.set_speed(3).unwrap();
    let zones = [RgbColor::new(1, 2, 3), RgbColor::new(4, 5, 6), RgbColor::new(7, 8, 9), RgbColor::new(10, 11, 12)];
    assert_eq!(legacy_packet(WriteMethod::FeatureReport(0xcc), 0x01, 3, 1, &zones), build_legacy_payload(&st));
}

#[test]
fn zones_spread_and_fold() {
    let zones = [RgbColor::new(255, 0, 0), RgbColor::new(0, 255, 0), RgbColor::new(0, 0, 255), RgbColor::new(9, 9, 9)];
    let mut frame = [RgbColor::black(); 24];
    set_physical_zones(&mut frame, zones);
    assert_eq!(frame[0], zones[0]);
    assert_eq!(frame[5], zones[0]);
    assert_eq!(frame[6], zones[1]);
    assert_eq!(frame[23], zones[3]);
    assert_eq!(average_to_four(&frame), zones);
    fill(&mut frame, RgbColor::white());
    assert!(frame.iter().all(|&c| c == RgbColor::white()));
    let mut mixed = [RgbColor::black(); 24];
    mixed[0] = RgbColor::new(6, 7, 255);
    mixed[1] = RgbColor::new(6, 0, 255);
    assert_eq!(average_to_four(&mixed)[0], RgbColor::new(2, 1, 85));
}

#[test]
fn key_zones() {
    assert_eq!(map_key_to_zone(KeyName::Escape), 0);
    assert_eq!(map_key_to_zone(KeyName::Space), 1);
    assert_eq!(map_key_to_zone(KeyName::AltGr), 2);
    assert_eq!(map_key_to_zone(KeyName::Other), 3);
}

#[test]
fn key_events_keep_the_newest_24() {
    let mut events = Vec::new();
    for i in 0..30 {
        push_key_event(&mut events, i % 4);
        assert!(events.len() <= 24);
        assert_eq!(*events.last().unwrap(), i % 4);
    }
    assert_eq!(events.len(), 24);
    assert_eq!(events[0], 6 % 4);
}

#[test]
fn labels() {
    assert_eq!(candidate_label(0xc993, 2, 0xff89), "PID 0xc993 IF 2 USAGE 0xff89");
    assert_eq!(candidate_label(0x00ab, -1, 0x0001), "PID 0x00ab IF -1 USAGE 0x0001");
    assert_eq!(output_label("PID 0xc993 IF 2 USAGE 0xff89", WriteMethod::FeatureReport(0xcc)), "PID 0xc993 IF 2 USAGE 0xff89 RID 0xCC");
    assert_eq!(join_labels(&vec!["a".to_string(), "b".to_string(), "c".to_string()]), "a | b | c");
    assert_eq!(join_labels(&vec![]), "");
    assert_eq!(interface_label(&String::new()), "No device");
    assert_eq!(interface_label(&"a | b".to_string()), "a | b");
    assert_eq!(hardware_test_message(RgbColor::new(0, 229, 255)), "Hardware test sent: #00e5ff");
}

#[test]
fn presets() {
    assert_eq!(preset_kind("staticColor"), Ok(PresetKind::StaticColor));
    assert_eq!(preset_kind("THERMALPRO"), Ok(PresetKind::ThermalPro));
    assert_eq!(preset_kind("rainbowWave"), Ok(PresetKind::RainbowWave));
    assert_eq!(preset_kind("disco"), Err("Unknown preset: disco".to_string()));
    assert_eq!(preset_of_lower("Aurora"), None);
    assert_eq!(preset_of_lower("aurora"), Some(PresetKind::Aurora));
    assert_eq!(loaded_preset_message("ocean"), "Loaded preset: ocean");
}

#[test]
fn connection_and_flush_outcomes() {
    assert_eq!(connect_result(&vec![]), Err("No compatible 4-zone Legion/LOQ interface found".to_string()));
    assert_eq!(
        connect_result(&vec!["A RID 0xCC".to_string(), "B RID 0x07".to_string()]),
        Ok("A RID 0xCC | B RID 0x07".to_string())
    );
    assert_eq!(flush_result(0, 0), Err("Keyboard not connected".to_string()));
    assert_eq!(flush_result(2, 0), Err("No connected lighting endpoints accepted the frame".to_string()));
    assert_eq!(flush_result(2, 1), Ok(()));
}
