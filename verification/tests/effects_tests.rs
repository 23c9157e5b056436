use legion_rgb::effects::{heartbeat_phase, HeartbeatPhase};
use legion_rgb::effects::{
    emergency_pattern, focus_lamp_frame, glitch_kind, glitch_round, glitch_round_from, GlitchKind, lightning_round, lightning_round_from, morse_code,
    morse_message, morse_of_upper, morse_tick, scanline_frame, string_to_morse, EmergencyType, GlitchRound, MorseTick,
    Pulse,
};

use Pulse::{Dash, Dot, Gap, LetterSpace};

#[test]
fn morse_of_sos() {
    assert_eq!(
        string_to_morse("SOS"),
        vec![Dot, Gap, Dot, Gap, Dot, Gap, LetterSpace, Dash, Gap, Dash, Gap, Dash, Gap, LetterSpace, Dot, Gap, Dot, Gap, Dot, Gap, LetterSpace]
    );
}

#[test]
fn morse_upper_cases_its_input() {
    assert_eq!(string_to_morse("sos"), string_to_morse("SOS"));
    assert_eq!(string_to_morse("e t"), vec![Dot, Gap, LetterSpace, LetterSpace, Gap, LetterSpace, Dash, Gap, LetterSpace]);
}

#[test]
fn morse_unknown_characters_and_concat() {
    assert_eq!(string_to_morse("1"), vec![LetterSpace]);
    assert_eq!(string_to_morse(""), vec![]);
    let mut ab = morse_of_upper("LE");
    ab.extend(morse_of_upper("GION"));
    assert_eq!(morse_of_upper("LEGION"), ab);
    assert_eq!(morse_message(), "LEGION");
    assert_eq!(morse_code('Q'), vec![Dash, Dash, Dot, Dash]);
}

#[test]
fn morse_ticks() {
    let seq = vec![Dot, Gap, Dash, LetterSpace];
    assert_eq!(morse_tick(&seq, 0), MorseTick { on: true, wait_ms: 200, next_index: 1 });
    assert_eq!(morse_tick(&seq, 1), MorseTick { on: false, wait_ms: 200, next_index: 2 });
    assert_eq!(morse_tick(&seq, 2), MorseTick { on: true, wait_ms: 600, next_index: 3 });
    assert_eq!(morse_tick(&seq, 3), MorseTick { on: false, wait_ms: 600, next_index: 4 });
    assert_eq!(morse_tick(&seq, 4), MorseTick { on: false, wait_ms: 2000, next_index: 1 });
}

#[test]
fn lightning_plan() {
    let profile = [1, 2, 3, 4, 5, 6, 7, 8, 9, 10, 11, 12];
    let r = lightning_round_from(&profile, 2, 1, 200, 30, true, 500);
    assert_eq!(r.frame, [0, 0, 0, 4, 5, 6, 0, 0, 0, 0, 0, 0]);
    assert_eq!(r.first_fade_steps, 100);
    assert_eq!(r.second_fade_steps, Some(50));
    assert_eq!(r.pause_ms, 30);
    assert_eq!(r.rest_ms, 500);
    let r = lightning_round_from(&profile, 3, 3, 50, 20, false, 100);
    assert_eq!(r.frame, [0, 0, 0, 0, 0, 0, 0, 0, 0, 10, 11, 12]);
    assert_eq!(r.first_fade_steps, 16);
    assert_eq!(r.second_fade_steps, None);
}

#[test]
fn lightning_draws_in_range() {
    let mut rng = rand::rng();
    let profile = [200; 12];
    for _ in 0..200 {
        let r = lightning_round(&mut rng, &profile, 1);
        assert!((50..=200).contains(&r.first_fade_steps));
        assert!((20..80).contains(&r.pause_ms));
        assert!((100..=2000).contains(&r.rest_ms));
        assert_eq!(r.frame.iter().filter(|&&b| b == 200).count(), 3);
        if let Some(s) = r.second_fade_steps {
            assert_eq!(s, r.first_fade_steps / 2);
        }
    }
}

#[test]
fn glitch_rounds() {
    let base = [10; 12];
    assert_eq!(scanline_frame(&base, 2), [10, 10, 10, 10, 10, 10, 255, 0, 255, 10, 10, 10]);
    let mut rng = rand::rng();
    let mut seen_burst = false;
    for _ in 0..500 {
        match glitch_round(&mut rng, &base) {
            GlitchRound::Burst { frame, hold_ms } => {
                seen_burst = true;
                assert!(frame.iter().all(|&b| (150..255).contains(&b)));
                assert!((20..60).contains(&hold_ms));
            }
            GlitchRound::Scanline { frame } => {
                assert_eq!(frame.iter().filter(|&&b| b == 255).count(), 2);
            }
            GlitchRound::Jitter => {}
        }
    }
    assert!(seen_burst);
}

#[test]
fn glitch_round_follows_the_draw() {
    let base = [10u8; 12];
    let burst = [200u8; 12];
    match glitch_round_from(&base, 3, burst, 40, 1) {
        GlitchRound::Burst { frame, hold_ms } => {
            assert_eq!(frame, burst);
            assert_eq!(hold_ms, 40);
        }
        _ => panic!("a draw below 10 is a burst"),
    }
    match glitch_round_from(&base, 12, burst, 40, 1) {
        GlitchRound::Scanline { frame } => assert_eq!(frame, scanline_frame(&base, 1)),
        _ => panic!("a draw in 10..25 is a scanline"),
    }
    assert!(matches!(glitch_round_from(&base, 80, burst, 40, 1), GlitchRound::Jitter));
}

#[test]
fn glitch_kinds_by_draw() {
    assert_eq!(glitch_kind(0), GlitchKind::Burst);
    assert_eq!(glitch_kind(9), GlitchKind::Burst);
    assert_eq!(glitch_kind(10), GlitchKind::Scanline);
    assert_eq!(glitch_kind(24), GlitchKind::Scanline);
    assert_eq!(glitch_kind(25), GlitchKind::Jitter);
    assert_eq!(glitch_kind(99), GlitchKind::Jitter);
}

#[test]
fn emergency_patterns() {
    let p = emergency_pattern(EmergencyType::Police, 2);
    assert_eq!(p.first, [255, 0, 0, 255, 0, 0, 0, 0, 0, 0, 0, 0]);
    assert_eq!(p.second, [0, 0, 0, 0, 0, 0, 0, 0, 255, 0, 0, 255]);
    assert_eq!(p.hold_us, 125_000);
    let a = emergency_pattern(EmergencyType::Ambulance, 3);
    assert_eq!(a.first, [255; 12]);
    assert_eq!(a.second, [255, 0, 0, 255, 0, 0, 255, 0, 0, 255, 0, 0]);
    assert_eq!(a.hold_us, 41_500);
    assert_eq!(emergency_pattern(EmergencyType::Police, 0).hold_us, 250_000);
    assert_eq!(focus_lamp_frame(), [20, 10, 5, 255, 180, 100, 255, 180, 100, 20, 10, 5]);
}

#[test]
fn heartbeat_rhythm() {
    assert_eq!(heartbeat_phase(0), HeartbeatPhase::Lub { progress_ms: 0 });
    assert_eq!(heartbeat_phase(399), HeartbeatPhase::Lub { progress_ms: 399 });
    assert_eq!(heartbeat_phase(450), HeartbeatPhase::Rest);
    assert_eq!(heartbeat_phase(650), HeartbeatPhase::Dub { progress_ms: 150 });
    assert_eq!(heartbeat_phase(800), HeartbeatPhase::Rest);
    assert_eq!(heartbeat_phase(4100), HeartbeatPhase::Lub { progress_ms: 100 });
}
