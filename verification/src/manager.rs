//! The effect manager's decisions: how a frame is painted, which keyboard
//! commands a profile or a custom step needs, how messages change the
//! manager's state, and which profile a window title selects.
use vstd::prelude::*;
use std::sync::Arc;
use std::sync::atomic::AtomicBool;
use crate::driver::{BaseEffects, BRIGHTNESS_MAX, BRIGHTNESS_MIN, SPEED_MAX, SPEED_MIN};
use crate::enums::{spec_brightness_level, AutomationRule, Brightness, Message};
use crate::profile::{is_default_profile, CustomEffect, EffectStep, EffectType, Profile};
use crate::text::{seq_contains, str_contains};

verus! {

/// Why the effect manager could not be created.
#[derive(Clone, Copy, Debug, PartialEq, Eq, Structural)]
pub enum ManagerCreationError {
    AcquireKeyboard,
    InstanceAlreadyRunning,
}

/// The message of each creation error.
pub open spec fn spec_creation_error_message(e: ManagerCreationError) -> Seq<char> {
    match e {
        ManagerCreationError::AcquireKeyboard => "There was an error getting a valid keyboard"@,
        ManagerCreationError::InstanceAlreadyRunning => "An instance of the program is already running"@,
    }
}

impl ManagerCreationError {
    /// The message shown for the error.
    pub fn message(&self) -> (r: &'static str)
        ensures
            r@ == spec_creation_error_message(*self),
    {
        match self {
            ManagerCreationError::AcquireKeyboard => "There was an error getting a valid keyboard",
            ManagerCreationError::InstanceAlreadyRunning => "An instance of the program is already running",
        }
    }
}

/// Whether the manager blocks on messages (command line) or polls them
/// between frames (graphical interface).
#[derive(Clone, Copy, Debug, PartialEq, Eq, Structural)]
pub enum OperationMode {
    Cli,
    Gui,
}

/// The flags that ask the running effect and a running colour transition
/// to stop.
#[derive(Clone)]
pub struct StopSignals {
    pub manager_stop_signal: Arc<AtomicBool>,
    pub keyboard_stop_signal: Arc<AtomicBool>,
}

impl StopSignals {
    /// Two fresh flags, both lowered.
    pub fn new() -> (r: StopSignals) {
        StopSignals {
            manager_stop_signal: Arc::new(AtomicBool::new(false)),
            keyboard_stop_signal: Arc::new(AtomicBool::new(false)),
        }
    }

    /// Raises both flags: the keyboard's first, then the manager's.
    pub fn store_true(&self) {
        self.keyboard_stop_signal.store(true, std::sync::atomic::Ordering::SeqCst);
        self.manager_stop_signal.store(true, std::sync::atomic::Ordering::SeqCst);
    }

    /// Lowers both flags: the keyboard's first, then the manager's.
    pub fn store_false(&self) {
        self.keyboard_stop_signal.store(false, std::sync::atomic::Ordering::SeqCst);
        self.manager_stop_signal.store(false, std::sync::atomic::Ordering::SeqCst);
    }
}


/// Something the keyboard is asked to do.
#[derive(Clone, Copy, Debug)]
pub enum KeyboardCommand {
    SetEffect(BaseEffects),
    SetSpeed(u8),
    SetBrightness(u8),
    SetColors([u8; 12]),
    /// Fade from the current colours to `target` in `steps` steps.
    Transition { target: [u8; 12], steps: u8, delay_between_steps: u64 },
}

/// One colour byte at a profile brightness: halved (rounding down) at low
/// brightness, unchanged at high.
pub open spec fn spec_scaled(value: u8, brightness: Brightness) -> u8 {
    match brightness {
        Brightness::Low => (value / 2) as u8,
        Brightness::High => value,
    }
}

/// The frame actually sent for a painted frame: all dark while the lights
/// are switched off, otherwise each byte at the profile's brightness.
pub open spec fn spec_paint_frame(master_off: bool, brightness: Brightness, colors: Seq<u8>) -> Seq<u8> {
    if master_off {
        Seq::new(12, |i: int| 0u8)
    } else {
        Seq::new(12, |i: int| spec_scaled(colors[i], brightness))
    }
}

/// The frame sent to the keyboard when an effect paints `colors`.
pub fn paint_frame(master_off: bool, brightness: Brightness, colors: &[u8; 12]) -> (frame: [u8; 12])
    ensures
        frame@ == spec_paint_frame(master_off, brightness, colors@),
{
    let mut frame: [u8; 12] = [0u8; 12];
    if master_off {
        assert(frame@ =~= spec_paint_frame(master_off, brightness, colors@));
        return frame;
    }
    let mut i: usize = 0;
    while i < 12
        invariant
            i <= 12,
            forall|j: int| 0 <= j < i ==> frame@[j] == spec_scaled(colors@[j], brightness),
        decreases 12 - i,
    {
        frame[i] = match brightness {
            Brightness::Low => colors[i] / 2,
            Brightness::High => colors[i],
        };
        i = i + 1;
    }
    assert(frame@ =~= spec_paint_frame(master_off, brightness, colors@));
    frame
}

/// `value` brought into `low..=high`.
pub open spec fn spec_clamp(value: u8, low: u8, high: u8) -> u8 {
    if value < low { low } else if value > high { high } else { value }
}

/// The commands that put the keyboard in the state a profile needs: a
/// firmware effect gets its speed (clamped to 1..=4), a software effect
/// puts the keyboard in static mode; then the brightness level follows.
pub open spec fn spec_profile_commands(profile: Profile, built_in: bool) -> Seq<KeyboardCommand> {
    seq![
        if built_in {
            KeyboardCommand::SetSpeed(spec_clamp(profile.speed, SPEED_MIN, SPEED_MAX))
        } else {
            KeyboardCommand::SetEffect(BaseEffects::Static)
        },
        KeyboardCommand::SetBrightness(spec_brightness_level(profile.brightness)),
    ]
}

/// The commands that prepare the keyboard for a profile.
pub fn profile_commands(profile: &Profile) -> (r: Vec<KeyboardCommand>)
    ensures
        r@ == spec_profile_commands(*profile, false),
{
    let mut r: Vec<KeyboardCommand> = Vec::new();
    if profile.effect.is_built_in() {
        let speed = if profile.speed < SPEED_MIN {
            SPEED_MIN
        } else if profile.speed > SPEED_MAX {
            SPEED_MAX
        } else {
            profile.speed
        };
        r.push(KeyboardCommand::SetSpeed(speed));
    } else {
        r.push(KeyboardCommand::SetEffect(BaseEffects::Static));
    }
    r.push(KeyboardCommand::SetBrightness(profile.brightness.level()));
    assert(r@ =~= spec_profile_commands(*profile, false));
    r
}

/// The commands of one custom step: its brightness, then its colours,
/// either at once or as a fade.
pub open spec fn spec_custom_step_commands(step: EffectStep) -> Seq<KeyboardCommand> {
    seq![
        KeyboardCommand::SetBrightness(step.brightness),
        if step.step_type == EffectType::Direct {
            KeyboardCommand::SetColors(step.rgb_array)
        } else {
            KeyboardCommand::Transition {
                target: step.rgb_array,
                steps: step.steps,
                delay_between_steps: step.delay_between_steps,
            }
        },
    ]
}

/// The commands of one custom step.
pub fn custom_step_commands(step: &EffectStep) -> (r: Vec<KeyboardCommand>)
    ensures
        r@ == spec_custom_step_commands(*step),
{
    let mut r: Vec<KeyboardCommand> = Vec::new();
    r.push(KeyboardCommand::SetBrightness(step.brightness));
    match step.step_type {
        EffectType::Direct => r.push(KeyboardCommand::SetColors(step.rgb_array)),
        _ => r.push(
            KeyboardCommand::Transition {
                target: step.rgb_array,
                steps: step.steps,
                delay_between_steps: step.delay_between_steps,
            },
        ),
    }
    assert(r@ =~= spec_custom_step_commands(*step));
    r
}

/// Milliseconds between two dark frames while the lights are off during a
/// custom effect.
pub const MASTER_OFF_POLL_MS: u64 = 500;

/// The state of the manager's loop.
pub struct ManagerState {
    pub current_profile: Profile,
    pub profiles: Vec<Profile>,
    pub master_off: bool,
    pub automation_rules: Vec<AutomationRule>,
}

/// What the manager's loop does after a message.
#[derive(Debug)]
pub enum ManagerAction {
    /// Keep ticking the current profile.
    Continue,
    /// Prepare the keyboard for the (new) current profile.
    ApplyProfile,
    /// Play a custom effect.
    RunCustomEffect(CustomEffect),
    /// Leave the loop.
    Exit,
}

/// Whether a profile carries the given name.
pub open spec fn spec_has_name(p: Profile, name: Seq<char>) -> bool {
    match p.name {
        Some(n) => n@ == name,
        None => false,
    }
}

/// The index of the first profile with the given name.
pub fn find_profile(profiles: &Vec<Profile>, name: &String) -> (r: Option<usize>)
    ensures
        match r {
            Some(i) => i < profiles@.len() && spec_has_name(profiles@[i as int], name@)
                && forall|j: int| 0 <= j < i ==> !spec_has_name(#[trigger] profiles@[j], name@),
            None => forall|j: int| 0 <= j < profiles@.len() ==> !spec_has_name(#[trigger] profiles@[j], name@),
        },
{
    let mut i: usize = 0;
    while i < profiles.len()
        invariant
            i <= profiles@.len(),
            forall|j: int| 0 <= j < i ==> !spec_has_name(#[trigger] profiles@[j], name@),
        decreases profiles@.len() - i,
    {
        let hit = match &profiles[i].name {
            Some(n) => n.eq(name),
            None => false,
        };
        if hit {
            return Some(i);
        }
        i = i + 1;
    }
    None
}

impl ManagerState {
    /// The state the manager starts in: the first profile is current (the
    /// default profile when there is none).
    pub fn new(profiles: Vec<Profile>, automation_rules: Vec<AutomationRule>, master_off: bool) -> (r: ManagerState)
        ensures
            r.profiles@ == profiles@,
            r.automation_rules@ == automation_rules@,
            r.master_off == master_off,
            profiles@.len() > 0 ==> r.current_profile == profiles@[0],
            profiles@.len() == 0 ==> is_default_profile(r.current_profile),
    {
        let current_profile = if profiles.len() > 0 {
            profiles[0].clone()
        } else {
            Profile::default()
        };
        ManagerState { current_profile, profiles, master_off, automation_rules }
    }

    /// Takes in one message.
    pub fn handle_message(&mut self, message: Message) -> (action: ManagerAction)
        ensures
            match message {
                Message::Profile { profile } => action is ApplyProfile && final(self).current_profile == profile
                    && final(self).profiles == old(self).profiles && final(self).master_off == old(self).master_off
                    && final(self).automation_rules == old(self).automation_rules,
                Message::AutoProfile { name } => {
                    &&& final(self).profiles == old(self).profiles
                    &&& final(self).master_off == old(self).master_off
                    &&& final(self).automation_rules == old(self).automation_rules
                    &&& if exists|j: int| 0 <= j < old(self).profiles@.len() && spec_has_name(#[trigger] old(self).profiles@[j], name@) {
                        &&& action is ApplyProfile
                        &&& spec_has_name(final(self).current_profile, name@)
                        &&& exists|j: int| 0 <= j < old(self).profiles@.len() && final(self).current_profile == old(self).profiles@[j]
                            && spec_has_name(old(self).profiles@[j], name@)
                            && forall|k: int| 0 <= k < j ==> !spec_has_name(#[trigger] old(self).profiles@[k], name@)
                    } else {
                        action is Continue && final(self).current_profile == old(self).current_profile
                    }
                },
                Message::UpdateAutomationRules { rules } => action is Continue && final(self).automation_rules == rules
                    && final(self).current_profile == old(self).current_profile && final(self).profiles == old(self).profiles
                    && final(self).master_off == old(self).master_off,
                Message::UpdateMasterPower { off } => action is Continue && final(self).master_off == off
                    && final(self).current_profile == old(self).current_profile && final(self).profiles == old(self).profiles
                    && final(self).automation_rules == old(self).automation_rules,
                Message::CustomEffect { effect } => action == ManagerAction::RunCustomEffect(effect)
                    && *final(self) == *old(self),
                Message::Exit => action is Exit && *final(self) == *old(self),
            },
    {
        match message {
            Message::Profile { profile } => {
                self.current_profile = profile;
                ManagerAction::ApplyProfile
            },
            Message::AutoProfile { name } => {
                match find_profile(&self.profiles, &name) {
                    Some(i) => {
                        self.current_profile = self.profiles[i].clone();
                        ManagerAction::ApplyProfile
                    },
                    None => ManagerAction::Continue,
                }
            },
            Message::UpdateAutomationRules { rules } => {
                self.automation_rules = rules;
                ManagerAction::Continue
            },
            Message::UpdateMasterPower { off } => {
                self.master_off = off;
                ManagerAction::Continue
            },
            Message::CustomEffect { effect } => ManagerAction::RunCustomEffect(effect),
            Message::Exit => ManagerAction::Exit,
        }
    }
}

/// The profile that the first matching rule names: the first rule whose
/// pattern occurs in the window title.
pub fn automation_match(title: &str, rules: &Vec<AutomationRule>) -> (r: Option<String>)
    ensures
        match r {
            Some(name) => exists|i: int| 0 <= i < rules@.len()
                && seq_contains(title@, rules@[i].title_contains@)
                && name@ == rules@[i].profile_name@
                && forall|j: int| 0 <= j < i ==> !seq_contains(title@, #[trigger] rules@[j].title_contains@),
            None => forall|j: int| 0 <= j < rules@.len() ==> !seq_contains(title@, #[trigger] rules@[j].title_contains@),
        },
{
    let mut i: usize = 0;
    while i < rules.len()
        invariant
            i <= rules@.len(),
            forall|j: int| 0 <= j < i ==> !seq_contains(title@, #[trigger] rules@[j].title_contains@),
        decreases rules@.len() - i,
    {
        if str_contains(title, rules[i].title_contains.as_str()) {
            return Some(rules[i].profile_name.clone());
        }
        i = i + 1;
    }
    None
}

/// The foreground-window watcher: it remembers the last title it acted on.
pub struct WindowWatch {
    pub last_title: String,
}

impl WindowWatch {
    /// A watcher that has seen no title yet.
    pub fn new() -> (r: WindowWatch)
        ensures
            r.last_title@ == Seq::<char>::empty(),
    {
        WindowWatch { last_title: String::new() }
    }

    /// Looks at the current foreground title. An empty title, or the title
    /// seen last, changes nothing; a new title is remembered, and the
    /// profile named by the first rule whose pattern it contains is returned.
    pub fn observe(&mut self, title: String, rules: &Vec<AutomationRule>) -> (r: Option<String>)
        ensures
            title@.len() == 0 || title@ == old(self).last_title@ ==> r is None && final(self).last_title@ == old(self).last_title@,
            title@.len() > 0 && title@ != old(self).last_title@ ==> {
                &&& final(self).last_title@ == title@
                &&& match r {
                    Some(name) => exists|i: int| 0 <= i < rules@.len()
                        && seq_contains(title@, rules@[i].title_contains@)
                        && name@ == rules@[i].profile_name@
                        && forall|j: int| 0 <= j < i ==> !seq_contains(title@, #[trigger] rules@[j].title_contains@),
                    None => forall|j: int| 0 <= j < rules@.len() ==> !seq_contains(title@, #[trigger] rules@[j].title_contains@),
                }
            },
    {
        if title.as_str().unicode_len() == 0 || title == self.last_title {
            return None;
        }
        let r = automation_match(title.as_str(), rules);
        self.last_title = title;
        r
    }
}


/// Preparing the keyboard for a profile never asks for a setting the
/// keyboard refuses: the brightness level is always 1 or 2, and a firmware
/// effect's speed is always within 1..=4.
pub proof fn lemma_profile_commands_accepted(profile: Profile, built_in: bool)
    ensures
        spec_profile_commands(profile, built_in).len() == 2,
        spec_profile_commands(profile, built_in)[1] matches KeyboardCommand::SetBrightness(b)
            && BRIGHTNESS_MIN <= b <= BRIGHTNESS_MAX,
        built_in ==> (spec_profile_commands(profile, built_in)[0] matches KeyboardCommand::SetSpeed(s)
            && SPEED_MIN <= s <= SPEED_MAX),
        !built_in ==> (spec_profile_commands(profile, built_in)[0] matches KeyboardCommand::SetEffect(e)
            && e == BaseEffects::Static),
{
}

/// A painted frame: all dark while the lights are off; otherwise every
/// byte halved (rounding down) at low brightness and unchanged at high, so a
/// low frame is never brighter than the high one.
pub proof fn lemma_paint_brightness(master_off: bool, brightness: Brightness, colors: Seq<u8>, i: int)
    requires
        colors.len() == 12,
        0 <= i < 12,
    ensures
        spec_paint_frame(master_off, brightness, colors).len() == 12,
        master_off ==> spec_paint_frame(master_off, brightness, colors)[i] == 0,
        !master_off && brightness == Brightness::Low ==> spec_paint_frame(master_off, brightness, colors)[i] == colors[i] / 2,
        !master_off && brightness == Brightness::High ==> spec_paint_frame(master_off, brightness, colors)[i] == colors[i],
        spec_paint_frame(master_off, Brightness::Low, colors)[i] <= spec_paint_frame(master_off, Brightness::High, colors)[i],
{
}

/// A custom step first sets its brightness, then either shows its colours
/// at once (a direct step) or fades into them with its own step count and
/// delay (a transition step).
pub proof fn lemma_custom_step_order(step: EffectStep)
    ensures
        spec_custom_step_commands(step).len() == 2,
        spec_custom_step_commands(step)[0] == KeyboardCommand::SetBrightness(step.brightness),
        step.step_type == EffectType::Direct ==> spec_custom_step_commands(step)[1] == KeyboardCommand::SetColors(step.rgb_array),
        step.step_type == EffectType::Transition ==> spec_custom_step_commands(step)[1] == (KeyboardCommand::Transition {
            target: step.rgb_array,
            steps: step.steps,
            delay_between_steps: step.delay_between_steps,
        }),
{
}

/// A software effect puts the keyboard in static mode and then sets the
/// profile's brightness level (1 for low, 2 for high); a firmware effect
/// would set its speed, brought into 1..=4, in place of the static mode.
pub proof fn lemma_profile_preparation(profile: Profile, built_in: bool)
    ensures
        !built_in ==> spec_profile_commands(profile, built_in)[0] == KeyboardCommand::SetEffect(BaseEffects::Static),
        built_in && 1 <= profile.speed <= 4 ==> spec_profile_commands(profile, built_in)[0] == KeyboardCommand::SetSpeed(profile.speed),
        built_in && profile.speed < 1 ==> spec_profile_commands(profile, built_in)[0] == KeyboardCommand::SetSpeed(1),
        built_in && profile.speed > 4 ==> spec_profile_commands(profile, built_in)[0] == KeyboardCommand::SetSpeed(4),
        spec_profile_commands(profile, built_in)[1] == KeyboardCommand::SetBrightness(
            if profile.brightness == Brightness::Low { 1u8 } else { 2u8 },
        ),
{
}

} // verus!
