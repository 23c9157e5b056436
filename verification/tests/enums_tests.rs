use legion_rgb::enums::{
    default_fps, default_random_colors, default_speed, default_vibrance, AutomationRule, Brightness, Direction,
    Effects, SwipeMode,
};

#[test]
fn effect_descriptions() {
    assert_eq!(Effects::Lightning.description(), "Random, crackling flashes of white and blue.");
    assert_eq!(Effects::SunsetGlow { speed: 3 }.description(), "Vibrant: Slow-shifting deep reds and oranges.");
    assert_eq!(
        Effects::SmoothWave { mode: SwipeMode::Fill, clean_with_black: true }.description(),
        "A high-fidelity, smooth wave of colors."
    );
}

#[test]
fn descriptions_are_distinct_and_non_empty() {
    let all = [
        Effects::NeonDream { speed: 1 },
        Effects::Lightning,
        Effects::SmoothWave { mode: SwipeMode::Change, clean_with_black: false },
        Effects::Ripple,
        Effects::RippleLit,
        Effects::AudioVisualizer { sensitivity_bits: 0, random_colors: true },
        Effects::Fire,
        Effects::OceanWave,
        Effects::Meteor,
        Effects::AmbientLight { fps: 60, vibrance: 100 },
        Effects::Heartbeat,
        Effects::PrismShift { speed: 1 },
        Effects::LightLeak { speed: 1 },
        Effects::VHSRetro { speed: 1 },
        Effects::SummerRain { speed: 1 },
        Effects::AuroraBorealis { speed: 1 },
        Effects::Candlelight,
        Effects::CyberPulse { speed: 1 },
        Effects::StarryNight { speed: 1 },
        Effects::SoftBloom { speed: 1 },
        Effects::SunsetGlow { speed: 1 },
    ];
    for (i, a) in all.iter().enumerate() {
        assert!(!a.description().is_empty());
        for (j, b) in all.iter().enumerate() {
            assert_eq!(a.description() == b.description(), i == j);
            assert_eq!(a == b, i == j);
        }
    }
    assert_eq!(Effects::NeonDream { speed: 1 }.description(), Effects::NeonDream { speed: 9 }.description());
}

#[test]
fn effect_capabilities() {
    let wave = Effects::SmoothWave { mode: SwipeMode::Change, clean_with_black: false };
    assert!(!wave.takes_color_array());
    assert!(wave.takes_direction());
    assert!(wave.takes_speed());
    assert!(Effects::Heartbeat.takes_color_array());
    assert!(!Effects::Heartbeat.takes_speed());
    assert!(!Effects::Candlelight.takes_speed());
    assert!(!Effects::Candlelight.takes_direction());
    assert!(Effects::NeonDream { speed: 1 }.takes_speed());
    assert!(!Effects::Fire.is_built_in());
}

#[test]
fn effects_compare_by_kind() {
    assert!(Effects::NeonDream { speed: 1 } == Effects::NeonDream { speed: 9 });
    assert!(Effects::Lightning != Effects::Ripple);
    assert!(
        Effects::AudioVisualizer { sensitivity_bits: 1.0f32.to_bits(), random_colors: true }
            == Effects::AudioVisualizer { sensitivity_bits: 50.0f32.to_bits(), random_colors: false }
    );
    assert!(matches!(Effects::default(), Effects::Lightning));
}

#[test]
fn defaults() {
    assert_eq!(default_speed(), 1);
    assert_eq!(default_fps(), 60);
    assert_eq!(default_vibrance(), 100);
    assert!(default_random_colors());
    assert_eq!(Direction::default(), Direction::Left);
    assert_eq!(Brightness::default(), Brightness::Low);
    assert_eq!(SwipeMode::default(), SwipeMode::Change);
    assert_eq!(Brightness::Low.level(), 1);
    assert_eq!(Brightness::High.level(), 2);
    let r = AutomationRule::default();
    assert_eq!(r.title_contains, "");
    assert_eq!(r.profile_name, "");
}
