//! The effects a profile can run, and the small enums and records around
//! them.
use vstd::prelude::*;
use crate::profile::{CustomEffect, Profile};
use vstd::std_specs::cmp::PartialEqSpecImpl;
use vstd::std_specs::cmp::PartialEqSpec;

verus! {

/// A window-title rule: when the foreground window's title contains
/// `title_contains`, the profile named `profile_name` is applied.
#[derive(Debug)]
pub struct AutomationRule {
    pub title_contains: String,
    pub profile_name: String,
}

impl Clone for AutomationRule {
    fn clone(&self) -> (r: Self)
        ensures
            r == *self,
    {
        AutomationRule { title_contains: self.title_contains.clone(), profile_name: self.profile_name.clone() }
    }
}

impl Default for AutomationRule {
    fn default() -> (r: Self)
        ensures
            r.title_contains@ == Seq::<char>::empty(),
            r.profile_name@ == Seq::<char>::empty(),
    {
        AutomationRule { title_contains: String::new(), profile_name: String::new() }
    }
}

/// How the smooth wave fills the zones.
#[derive(Debug, Clone, Copy, PartialEq, Eq, Structural)]
pub enum SwipeMode {
    Change,
    Fill,
}

impl Default for SwipeMode {
    fn default() -> (r: Self)
        ensures
            r == SwipeMode::Change,
    {
        SwipeMode::Change
    }
}

/// A software lighting effect with its settings. The audio visualizer's
/// sensitivity is held as the bit pattern of an `f32` (as `f32::to_bits`
/// gives it): the library only carries it.
#[derive(Clone, Copy, Debug)]
pub enum Effects {
    NeonDream { speed: u8 },
    Lightning,
    SmoothWave { mode: SwipeMode, clean_with_black: bool },
    Ripple,
    RippleLit,
    AudioVisualizer { sensitivity_bits: u32, random_colors: bool },
    Fire,
    OceanWave,
    Meteor,
    AmbientLight { fps: u8, vibrance: u8 },
    Heartbeat,
    PrismShift { speed: u8 },
    LightLeak { speed: u8 },
    VHSRetro { speed: u8 },
    SummerRain { speed: u8 },
    AuroraBorealis { speed: u8 },
    Candlelight,
    CyberPulse { speed: u8 },
    StarryNight { speed: u8 },
    SoftBloom { speed: u8 },
    SunsetGlow { speed: u8 },
}

/// The position of an effect's variant in the declaration.
pub open spec fn effect_index(e: Effects) -> int {
    match e {
        Effects::NeonDream { .. } => 0,
        Effects::Lightning => 1,
        Effects::SmoothWave { .. } => 2,
        Effects::Ripple => 3,
        Effects::RippleLit => 4,
        Effects::AudioVisualizer { .. } => 5,
        Effects::Fire => 6,
        Effects::OceanWave => 7,
        Effects::Meteor => 8,
        Effects::AmbientLight { .. } => 9,
        Effects::Heartbeat => 10,
        Effects::PrismShift { .. } => 11,
        Effects::LightLeak { .. } => 12,
        Effects::VHSRetro { .. } => 13,
        Effects::SummerRain { .. } => 14,
        Effects::AuroraBorealis { .. } => 15,
        Effects::Candlelight => 16,
        Effects::CyberPulse { .. } => 17,
        Effects::StarryNight { .. } => 18,
        Effects::SoftBloom { .. } => 19,
        Effects::SunsetGlow { .. } => 20,
    }
}

/// The one-line description shown for each effect.
pub open spec fn spec_description(e: Effects) -> Seq<char> {
    match e {
        Effects::Lightning => "Random, crackling flashes of white and blue."@,
        Effects::SmoothWave { .. } => "A high-fidelity, smooth wave of colors."@,
        Effects::Ripple => "Responsive! Pressed zones light up and fade smoothly."@,
        Effects::RippleLit => "Responsive! Base color stays, pressed zones show secondary color."@,
        Effects::AudioVisualizer { .. } => "Reacts to the overall volume of your system audio."@,
        Effects::Fire => "Simulates flickering flames (Red/Orange/Yellow)."@,
        Effects::OceanWave => "Simulates calming waves (Deep Blue/Cyan)."@,
        Effects::Meteor => "A moving comet that bounces across the keyboard."@,
        Effects::AmbientLight { .. } => "Immersive: Matches keyboard colors to your screen."@,
        Effects::Heartbeat => "The Pulse: A rhythmic heartbeat using center-zone colors."@,
        Effects::PrismShift { .. } => "Improved dynamic effect: flowing rainbow prism with smooth blending."@,
        Effects::LightLeak { .. } => "Cinematic: Warm, cinematic amber glows moving smoothly."@,
        Effects::VHSRetro { .. } => "Retro: Enhanced glitch with color separation and scanlines."@,
        Effects::NeonDream { .. } => "Vibrant: Oscillating Pink, Purple, and Cyan gradients."@,
        Effects::SummerRain { .. } => "Nature: Organic, random blue pulses that fade like raindrops."@,
        Effects::AuroraBorealis { .. } => "Nature: Flowing green and purple waves mimicking the northern lights."@,
        Effects::Candlelight => "Nature: Realistic, irregular warm flickering like a candle."@,
        Effects::CyberPulse { .. } => "Action: Fast-paced Cyan and Magenta rhythms."@,
        Effects::StarryNight { .. } => "Nature: Twinkling dots on a dark background."@,
        Effects::SoftBloom { .. } => "Subtle: Breathing intensity across zones."@,
        Effects::SunsetGlow { .. } => "Vibrant: Slow-shifting deep reds and oranges."@,
    }
}

/// Every effect but the smooth wave paints the profile's zone colours.
pub open spec fn spec_takes_color_array(e: Effects) -> bool {
    !(e is SmoothWave)
}

/// Only the smooth wave has a direction.
pub open spec fn spec_takes_direction(e: Effects) -> bool {
    e is SmoothWave
}

/// Every effect but the heartbeat and the candlelight has a speed.
pub open spec fn spec_takes_speed(e: Effects) -> bool {
    !(e is Heartbeat) && !(e is Candlelight)
}

impl Effects {
    /// The one-line description of the effect.
    pub fn description(&self) -> (r: &'static str)
        ensures
            r@ == spec_description(*self),
    {
        match self {
            Self::Lightning => "Random, crackling flashes of white and blue.",
            Self::SmoothWave { .. } => "A high-fidelity, smooth wave of colors.",
            Self::Ripple => "Responsive! Pressed zones light up and fade smoothly.",
            Self::RippleLit => "Responsive! Base color stays, pressed zones show secondary color.",
            Self::AudioVisualizer { .. } => "Reacts to the overall volume of your system audio.",
            Self::Fire => "Simulates flickering flames (Red/Orange/Yellow).",
            Self::OceanWave => "Simulates calming waves (Deep Blue/Cyan).",
            Self::Meteor => "A moving comet that bounces across the keyboard.",
            Self::AmbientLight { .. } => "Immersive: Matches keyboard colors to your screen.",
            Self::Heartbeat => "The Pulse: A rhythmic heartbeat using center-zone colors.",
            Self::PrismShift { .. } => "Improved dynamic effect: flowing rainbow prism with smooth blending.",
            Self::LightLeak { .. } => "Cinematic: Warm, cinematic amber glows moving smoothly.",
            Self::VHSRetro { .. } => "Retro: Enhanced glitch with color separation and scanlines.",
            Self::NeonDream { .. } => "Vibrant: Oscillating Pink, Purple, and Cyan gradients.",
            Self::SummerRain { .. } => "Nature: Organic, random blue pulses that fade like raindrops.",
            Self::AuroraBorealis { .. } => "Nature: Flowing green and purple waves mimicking the northern lights.",
            Self::Candlelight => "Nature: Realistic, irregular warm flickering like a candle.",
            Self::CyberPulse { .. } => "Action: Fast-paced Cyan and Magenta rhythms.",
            Self::StarryNight { .. } => "Nature: Twinkling dots on a dark background.",
            Self::SoftBloom { .. } => "Subtle: Breathing intensity across zones.",
            Self::SunsetGlow { .. } => "Vibrant: Slow-shifting deep reds and oranges.",
        }
    }

    /// Whether the effect paints the profile's zone colours.
    pub fn takes_color_array(self) -> (r: bool)
        ensures
            r == spec_takes_color_array(self),
    {
        match self {
            Self::SmoothWave { .. } => false,
            _ => true,
        }
    }

    /// Whether the effect has a direction.
    pub fn takes_direction(self) -> (r: bool)
        ensures
            r == spec_takes_direction(self),
    {
        match self {
            Self::SmoothWave { .. } => true,
            _ => false,
        }
    }

    /// Whether the effect has a speed.
    pub fn takes_speed(self) -> (r: bool)
        ensures
            r == spec_takes_speed(self),
    {
        match self {
            Self::Heartbeat | Self::Candlelight => false,
            _ => true,
        }
    }

    /// Whether the effect runs on the keyboard's own firmware: none does,
    /// every effect here is drawn in software.
    pub fn is_built_in(self) -> (r: bool)
        ensures
            r == false,
    {
        false
    }
}

impl PartialEq for Effects {
    /// Two effects are equal when they are the same effect, whatever their
    /// settings.
    fn eq(&self, other: &Self) -> (r: bool) {
        effect_position(self) == effect_position(other)
    }
}

impl PartialEqSpecImpl for Effects {
    open spec fn obeys_eq_spec() -> bool {
        true
    }

    open spec fn eq_spec(&self, other: &Self) -> bool {
        effect_index(*self) == effect_index(*other)
    }
}

/// The position of an effect's variant, computed.
fn effect_position(e: &Effects) -> (r: u8)
    ensures
        r == effect_index(*e),
{
    match e {
        Effects::NeonDream { .. } => 0,
        Effects::Lightning => 1,
        Effects::SmoothWave { .. } => 2,
        Effects::Ripple => 3,
        Effects::RippleLit => 4,
        Effects::AudioVisualizer { .. } => 5,
        Effects::Fire => 6,
        Effects::OceanWave => 7,
        Effects::Meteor => 8,
        Effects::AmbientLight { .. } => 9,
        Effects::Heartbeat => 10,
        Effects::PrismShift { .. } => 11,
        Effects::LightLeak { .. } => 12,
        Effects::VHSRetro { .. } => 13,
        Effects::SummerRain { .. } => 14,
        Effects::AuroraBorealis { .. } => 15,
        Effects::Candlelight => 16,
        Effects::CyberPulse { .. } => 17,
        Effects::StarryNight { .. } => 18,
        Effects::SoftBloom { .. } => 19,
        Effects::SunsetGlow { .. } => 20,
    }
}

impl Default for Effects {
    fn default() -> (r: Self)
        ensures
            r is Lightning,
    {
        Effects::Lightning
    }
}

/// Equality of effects compares the effect and ignores its settings; it is
/// an equivalence relation.
pub proof fn lemma_effects_eq_equivalence(a: Effects, b: Effects, c: Effects)
    ensures
        PartialEqSpec::eq_spec(&a, &a),
        PartialEqSpec::eq_spec(&a, &b) == PartialEqSpec::eq_spec(&b, &a),
        PartialEqSpec::eq_spec(&a, &b) && PartialEqSpec::eq_spec(&b, &c) ==> PartialEqSpec::eq_spec(&a, &c),
        (a is NeonDream && b is NeonDream) ==> PartialEqSpec::eq_spec(&a, &b),
{
}

/// Each effect has its own description: two effects have the same
/// description exactly when they are the same effect (the settings aside),
/// and no description is empty.
pub proof fn lemma_descriptions_identify_effects(a: Effects, b: Effects)
    ensures
        spec_description(a).len() > 0,
        (spec_description(a) == spec_description(b)) == PartialEqSpec::eq_spec(&a, &b),
{
    reveal_strlit("Random, crackling flashes of white and blue.");
    reveal_strlit("A high-fidelity, smooth wave of colors.");
    reveal_strlit("Responsive! Pressed zones light up and fade smoothly.");
    reveal_strlit("Responsive! Base color stays, pressed zones show secondary color.");
    reveal_strlit("Reacts to the overall volume of your system audio.");
    reveal_strlit("Simulates flickering flames (Red/Orange/Yellow).");
    reveal_strlit("Simulates calming waves (Deep Blue/Cyan).");
    reveal_strlit("A moving comet that bounces across the keyboard.");
    reveal_strlit("Immersive: Matches keyboard colors to your screen.");
    reveal_strlit("The Pulse: A rhythmic heartbeat using center-zone colors.");
    reveal_strlit("Improved dynamic effect: flowing rainbow prism with smooth blending.");
    reveal_strlit("Cinematic: Warm, cinematic amber glows moving smoothly.");
    reveal_strlit("Retro: Enhanced glitch with color separation and scanlines.");
    reveal_strlit("Vibrant: Oscillating Pink, Purple, and Cyan gradients.");
    reveal_strlit("Nature: Organic, random blue pulses that fade like raindrops.");
    reveal_strlit("Nature: Flowing green and purple waves mimicking the northern lights.");
    reveal_strlit("Nature: Realistic, irregular warm flickering like a candle.");
    reveal_strlit("Action: Fast-paced Cyan and Magenta rhythms.");
    reveal_strlit("Nature: Twinkling dots on a dark background.");
    reveal_strlit("Subtle: Breathing intensity across zones.");
    reveal_strlit("Vibrant: Slow-shifting deep reds and oranges.");
    if spec_description(a) == spec_description(b) {
        assert(spec_description(a).len() == spec_description(b).len());
        assert(spec_description(a)[0] == spec_description(b)[0]);
        assert(spec_description(a)[1] == spec_description(b)[1]);
    }
}

/// Exactly one of "takes a colour array" and "takes a direction" holds of
/// every effect, and every effect that takes a direction also takes a speed.
pub proof fn lemma_effect_capabilities(e: Effects)
    ensures
        spec_takes_color_array(e) != spec_takes_direction(e),
        spec_takes_direction(e) ==> spec_takes_speed(e),
{
}

/// Default speed of the speed-driven effects.
pub fn default_speed() -> (r: u8)
    ensures
        r == 1,
{
    1
}

/// Default frame rate of the ambient light.
pub fn default_fps() -> (r: u8)
    ensures
        r == 60,
{
    60
}

/// Default vibrance of the ambient light.
pub fn default_vibrance() -> (r: u8)
    ensures
        r == 100,
{
    100
}

/// The audio visualizer picks random colours unless told otherwise.
pub fn default_random_colors() -> (r: bool)
    ensures
        r == true,
{
    true
}

/// Direction of the smooth wave.
#[derive(Clone, Copy, Debug, PartialEq, Eq, Structural)]
pub enum Direction {
    Left,
    Right,
}

impl Default for Direction {
    fn default() -> (r: Self)
        ensures
            r == Direction::Left,
    {
        Direction::Left
    }
}

/// Brightness of a profile.
#[derive(Clone, Copy, Debug, PartialEq, Eq, Structural)]
pub enum Brightness {
    Low,
    High,
}

impl Default for Brightness {
    fn default() -> (r: Self)
        ensures
            r == Brightness::Low,
    {
        Brightness::Low
    }
}

/// The hardware brightness level of a profile brightness (its position
/// plus one): 1 for low, 2 for high.
pub open spec fn spec_brightness_level(b: Brightness) -> u8 {
    match b {
        Brightness::Low => 1,
        Brightness::High => 2,
    }
}

impl Brightness {
    /// The hardware brightness level: 1 for low, 2 for high.
    pub fn level(self) -> (r: u8)
        ensures
            r == spec_brightness_level(self),
    {
        match self {
            Brightness::Low => 1,
            Brightness::High => 2,
        }
    }
}

/// What the interface and the window monitor tell the effect manager.
#[derive(Debug)]
pub enum Message {
    CustomEffect { effect: CustomEffect },
    Profile { profile: Profile },
    AutoProfile { name: String },
    UpdateAutomationRules { rules: Vec<AutomationRule> },
    UpdateMasterPower { off: bool },
    Exit,
}

/// The description shown for each effect.
pub proof fn lemma_effect_description_texts(e: Effects)
    ensures
        e is Lightning ==> spec_description(e) == "Random, crackling flashes of white and blue."@,
        e is SmoothWave ==> spec_description(e) == "A high-fidelity, smooth wave of colors."@,
        e is Ripple ==> spec_description(e) == "Responsive! Pressed zones light up and fade smoothly."@,
        e is RippleLit ==> spec_description(e) == "Responsive! Base color stays, pressed zones show secondary color."@,
        e is AudioVisualizer ==> spec_description(e) == "Reacts to the overall volume of your system audio."@,
        e is Fire ==> spec_description(e) == "Simulates flickering flames (Red/Orange/Yellow)."@,
        e is OceanWave ==> spec_description(e) == "Simulates calming waves (Deep Blue/Cyan)."@,
        e is Meteor ==> spec_description(e) == "A moving comet that bounces across the keyboard."@,
        e is AmbientLight ==> spec_description(e) == "Immersive: Matches keyboard colors to your screen."@,
        e is Heartbeat ==> spec_description(e) == "The Pulse: A rhythmic heartbeat using center-zone colors."@,
        e is PrismShift ==> spec_description(e) == "Improved dynamic effect: flowing rainbow prism with smooth blending."@,
        e is LightLeak ==> spec_description(e) == "Cinematic: Warm, cinematic amber glows moving smoothly."@,
        e is VHSRetro ==> spec_description(e) == "Retro: Enhanced glitch with color separation and scanlines."@,
        e is NeonDream ==> spec_description(e) == "Vibrant: Oscillating Pink, Purple, and Cyan gradients."@,
        e is SummerRain ==> spec_description(e) == "Nature: Organic, random blue pulses that fade like raindrops."@,
        e is AuroraBorealis ==> spec_description(e) == "Nature: Flowing green and purple waves mimicking the northern lights."@,
        e is Candlelight ==> spec_description(e) == "Nature: Realistic, irregular warm flickering like a candle."@,
        e is CyberPulse ==> spec_description(e) == "Action: Fast-paced Cyan and Magenta rhythms."@,
        e is StarryNight ==> spec_description(e) == "Nature: Twinkling dots on a dark background."@,
        e is SoftBloom ==> spec_description(e) == "Subtle: Breathing intensity across zones."@,
        e is SunsetGlow ==> spec_description(e) == "Vibrant: Slow-shifting deep reds and oranges."@,
{
}

/// A low profile brightness is hardware level 1 and a high one level 2.
pub proof fn lemma_brightness_levels(b: Brightness)
    ensures
        b == Brightness::Low ==> spec_brightness_level(b) == 1,
        b == Brightness::High ==> spec_brightness_level(b) == 2,
{
}

} // verus!
