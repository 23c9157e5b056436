use legion_rgb::driver::BaseEffects;
use legion_rgb::enums::{AutomationRule, Brightness, Direction, Effects, Message};
use legion_rgb::manager::{
    automation_match, custom_step_commands, find_profile, paint_frame, profile_commands, KeyboardCommand,
    ManagerAction, ManagerCreationError, ManagerState, OperationMode, StopSignals, WindowWatch,
};
use legion_rgb::persist::{settings_path, Settings};
use legion_rgb::profile::{CustomEffect, EffectStep, EffectType, Profile, Zone};
use std::sync::atomic::Ordering;

fn profile(name: &str, brightness: Brightness) -> Profile {
    Profile {
        name: Some(name.to_string()),
        rgb_zones: [Zone { rgb: [10, 20, 30] }, Zone { rgb: [40, 50, 60] }, Zone { rgb: [70, 80, 90] }, Zone { rgb: [100, 110, 120] }],
        effect: Effects::Fire,
        direction: Direction::Right,
        speed: 9,
        brightness,
        base_color: [1, 2, 3],
    }
}

fn rule(pattern: &str, name: &str) -> AutomationRule {
    AutomationRule { title_contains: pattern.to_string(), profile_name: name.to_string() }
}

#[test]
fn paint_applies_brightness_and_master_power() {
    let colors = [255, 254, 3, 2, 1, 0, 100, 101, 7, 8, 9, 10];
    assert_eq!(paint_frame(false, Brightness::High, &colors), colors);
    assert_eq!(paint_frame(false, Brightness::Low, &colors), [127, 127, 1, 1, 0, 0, 50, 50, 3, 4, 4, 5]);
    assert_eq!(paint_frame(true, Brightness::High, &colors), [0; 12]);
}

#[test]
fn profile_preparation() {
    let cmds = profile_commands(&profile("a", Brightness::High));
    assert_eq!(cmds.len(), 2);
    assert!(matches!(cmds[0], KeyboardCommand::SetEffect(BaseEffects::Static)));
    assert!(matches!(cmds[1], KeyboardCommand::SetBrightness(2)));
    let cmds = profile_commands(&profile("a", Brightness::Low));
    assert!(matches!(cmds[1], KeyboardCommand::SetBrightness(1)));
}

#[test]
fn custom_steps() {
    let step = EffectStep { rgb_array: [5; 12], step_type: EffectType::Direct, brightness: 2, steps: 10, delay_between_steps: 4, sleep: 100 };
    let cmds = custom_step_commands(&step);
    assert!(matches!(cmds[0], KeyboardCommand::SetBrightness(2)));
    assert!(matches!(cmds[1], KeyboardCommand::SetColors(c) if c == [5; 12]));
    let fade = EffectStep { step_type: EffectType::Transition, ..step };
    let cmds = custom_step_commands(&fade);
    assert!(matches!(cmds[1], KeyboardCommand::Transition { target, steps: 10, delay_between_steps: 4 } if target == [5; 12]));
}

#[test]
fn profile_rgb_array() {
    let p = profile("a", Brightness::High);
    assert_eq!(p.rgb_array(), [10, 20, 30, 40, 50, 60, 70, 80, 90, 100, 110, 120]);
    assert_eq!(Profile::default().rgb_array(), [0; 12]);
}

#[test]
fn manager_starts_on_first_profile() {
    let st = ManagerState::new(vec![profile("work", Brightness::Low), profile("game", Brightness::High)], vec![], false);
    assert_eq!(st.current_profile.name.as_deref(), Some("work"));
    let st = ManagerState::new(vec![], vec![], true);
    assert!(st.current_profile.name.is_none());
    assert!(st.master_off);
}

#[test]
fn manager_messages() {
    let mut st = ManagerState::new(vec![profile("work", Brightness::Low), profile("game", Brightness::High)], vec![], false);
    assert!(matches!(st.handle_message(Message::AutoProfile { name: "game".to_string() }), ManagerAction::ApplyProfile));
    assert_eq!(st.current_profile.name.as_deref(), Some("game"));
    assert!(matches!(st.handle_message(Message::AutoProfile { name: "nothing".to_string() }), ManagerAction::Continue));
    assert_eq!(st.current_profile.name.as_deref(), Some("game"));
    assert!(matches!(st.handle_message(Message::Profile { profile: profile("new", Brightness::Low) }), ManagerAction::ApplyProfile));
    assert_eq!(st.current_profile.name.as_deref(), Some("new"));
    assert!(matches!(st.handle_message(Message::UpdateMasterPower { off: true }), ManagerAction::Continue));
    assert!(st.master_off);
    assert!(matches!(st.handle_message(Message::UpdateAutomationRules { rules: vec![rule("x", "y")] }), ManagerAction::Continue));
    assert_eq!(st.automation_rules.len(), 1);
    let effect = CustomEffect { effect_steps: vec![], should_loop: true };
    assert!(matches!(st.handle_message(Message::CustomEffect { effect }), ManagerAction::RunCustomEffect(e) if e.should_loop));
    assert!(matches!(st.handle_message(Message::Exit), ManagerAction::Exit));
}

#[test]
fn find_profile_by_name() {
    let ps = vec![profile("a", Brightness::Low), profile("b", Brightness::Low), profile("b", Brightness::High)];
    assert_eq!(find_profile(&ps, &"b".to_string()), Some(1));
    assert_eq!(find_profile(&ps, &"c".to_string()), None);
}

#[test]
fn automation_rules_first_match_wins() {
    let rules = vec![rule("Visual Studio", "code"), rule("Steam", "game"), rule("", "any")];
    assert_eq!(automation_match("Steam - Library", &rules), Some("game".to_string()));
    assert_eq!(automation_match("main.rs - Visual Studio Code", &rules), Some("code".to_string()));
    assert_eq!(automation_match("Notepad", &rules), Some("any".to_string()));
    assert_eq!(automation_match("Notepad", &rules[..2].to_vec()), None);
}

#[test]
fn window_watch_acts_once_per_title() {
    let rules = vec![rule("Steam", "game")];
    let mut w = WindowWatch::new();
    assert_eq!(w.observe("".to_string(), &rules), None);
    assert_eq!(w.observe("Steam".to_string(), &rules), Some("game".to_string()));
    assert_eq!(w.observe("Steam".to_string(), &rules), None);
    assert_eq!(w.observe("Browser".to_string(), &rules), None);
    assert_eq!(w.last_title, "Browser");
    assert_eq!(w.observe("Steam".to_string(), &rules), Some("game".to_string()));
}

#[test]
fn stop_signals() {
    let s = StopSignals::new();
    assert!(!s.manager_stop_signal.load(Ordering::SeqCst));
    s.store_true();
    assert!(s.manager_stop_signal.load(Ordering::SeqCst));
    assert!(s.keyboard_stop_signal.load(Ordering::SeqCst));
    s.store_false();
    assert!(!s.manager_stop_signal.load(Ordering::SeqCst));
    assert!(!s.keyboard_stop_signal.load(Ordering::SeqCst));
}

#[test]
fn creation_errors_and_modes() {
    assert_eq!(ManagerCreationError::AcquireKeyboard.message(), "There was an error getting a valid keyboard");
    assert_eq!(ManagerCreationError::InstanceAlreadyRunning.message(), "An instance of the program is already running");
    assert_ne!(OperationMode::Cli, OperationMode::Gui);
}

#[test]
fn settings_constructor() {
    let s = Settings::new(vec![profile("a", Brightness::Low)], vec![], profile("b", Brightness::High), true, vec![rule("x", "a")]);
    assert_eq!(s.profiles.len(), 1);
    assert_eq!(s.current_profile.name.as_deref(), Some("b"));
    assert!(s.master_off);
    assert_eq!(s.automation_rules[0].profile_name, "a");
    let d = Settings::default();
    assert!(d.profiles.is_empty() && !d.master_off);
}

#[test]
fn settings_file_location() {
    assert_eq!(settings_path(None, None, false), vec!["./settings.json".to_string()]);
    assert_eq!(
        settings_path(Some("C:/AppData".to_string()), None, false),
        vec!["C:/AppData".to_string(), "legion-kb-rgb".to_string(), "settings.json".to_string()]
    );
    assert_eq!(
        settings_path(Some("C:/AppData".to_string()), Some("D:/rgb.json".to_string()), false),
        vec!["C:/AppData".to_string(), "legion-kb-rgb".to_string(), "settings.json".to_string()]
    );
    assert_eq!(
        settings_path(Some("C:/AppData".to_string()), Some("D:/rgb.json".to_string()), true),
        vec!["D:/rgb.json".to_string()]
    );
    assert_eq!(settings_path(None, Some("x.json".to_string()), true), vec!["x.json".to_string()]);
}
