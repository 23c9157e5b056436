//! The keyboard driver's lighting state, the HID payloads that carry it, the
//! refresh and handshake sequences, and the choice of the device to drive.
use vstd::prelude::*;
use crate::text::{seq_contains, str_contains};

verus! {

/// The two report layouts spoken by the keyboards' ITE controllers.
#[derive(Clone, Copy, Debug, PartialEq, Eq, Structural)]
pub enum ProtocolType {
    /// 33-byte feature report, report id 0xcc.
    Legacy,
    /// 65-byte output report, report id 0x01.
    C2,
}

/// The hardware's own lighting modes.
#[derive(Clone, Copy, Debug, PartialEq, Eq, Structural)]
pub enum BaseEffects {
    Static,
    Breath,
    Smooth,
    LeftWave,
    RightWave,
}

/// What the keyboard is told to show: mode, speed, brightness and the
/// colours of the four zones (red, green, blue per zone).
#[derive(Clone, Copy, Debug)]
pub struct LightingState {
    pub effect_type: BaseEffects,
    pub speed: u8,
    pub brightness: u8,
    pub rgb_values: [u8; 12],
}

/// The lowest speed the hardware accepts.
pub const SPEED_MIN: u8 = 1;
/// The highest speed the hardware accepts.
pub const SPEED_MAX: u8 = 4;
/// The lowest brightness level.
pub const BRIGHTNESS_MIN: u8 = 1;
/// The highest brightness level.
pub const BRIGHTNESS_MAX: u8 = 2;
/// The first zone index.
pub const ZONE_MIN: u8 = 0;
/// The last zone index.
pub const ZONE_MAX: u8 = 3;
/// Vendor id of the ITE lighting controllers.
pub const ITE_VENDOR_ID: u16 = 0x048d;

/// Which setting was out of its range.
#[derive(Clone, Copy, Debug, PartialEq, Eq, Structural)]
pub enum RangeErrorKind {
    Speed,
    Brightness,
    Zone,
}

/// A setting outside the range the hardware accepts.
#[derive(Clone, Copy, Debug, PartialEq, Eq, Structural)]
pub struct RangeError {
    pub kind: RangeErrorKind,
}

/// The byte that selects a hardware mode in the legacy report.
pub open spec fn spec_effect_code(e: BaseEffects) -> u8 {
    match e {
        BaseEffects::Static => 0x01,
        BaseEffects::Breath => 0x03,
        BaseEffects::Smooth => 0x06,
        BaseEffects::LeftWave => 0x04,
        BaseEffects::RightWave => 0x04,
    }
}

/// Modes in which the zone colours are shown (and accepted).
pub open spec fn spec_accepts_colors(e: BaseEffects) -> bool {
    e == BaseEffects::Static || e == BaseEffects::Breath
}

/// Byte `i` of the legacy report for a state.
pub open spec fn legacy_byte(s: LightingState, i: int) -> u8 {
    if i == 0 {
        0xcc
    } else if i == 1 {
        0x16
    } else if i == 2 {
        spec_effect_code(s.effect_type)
    } else if i == 3 {
        s.speed
    } else if i == 4 {
        s.brightness
    } else if 5 <= i < 17 && spec_accepts_colors(s.effect_type) {
        s.rgb_values@[i - 5]
    } else if i == 18 && s.effect_type == BaseEffects::RightWave {
        1
    } else if i == 19 && s.effect_type == BaseEffects::LeftWave {
        1
    } else {
        0
    }
}

/// The legacy report for a state.
pub open spec fn spec_legacy_payload(s: LightingState) -> Seq<u8> {
    Seq::new(33, |i: int| legacy_byte(s, i))
}

/// The brightness byte of the C2 report.
pub open spec fn spec_c2_brightness(b: u8) -> u8 {
    if b == 1 { 50 } else { 100 }
}

/// Byte `i` of a C2 report with the given command byte; the brightness
/// byte is present only in the finished report.
pub open spec fn c2_byte(s: LightingState, command: u8, finished: bool, i: int) -> u8 {
    if i == 0 {
        0x01
    } else if i == 1 {
        command
    } else if i == 2 || i == 3 {
        0x01
    } else if 4 <= i < 16 {
        s.rgb_values@[i - 4]
    } else if i == 32 && finished {
        spec_c2_brightness(s.brightness)
    } else {
        0
    }
}

/// A C2 report.
pub open spec fn spec_c2_payload(s: LightingState, command: u8, finished: bool) -> Seq<u8> {
    Seq::new(65, |i: int| c2_byte(s, command, finished, i))
}

impl LightingState {
    /// The state a keyboard is opened with: static, slowest speed, low
    /// brightness, all zones dark.
    pub fn initial() -> (s: LightingState)
        ensures
            s.effect_type == BaseEffects::Static,
            s.speed == 1,
            s.brightness == 1,
            s.rgb_values@ == Seq::new(12, |i: int| 0u8),
    {
        let s = LightingState {
            effect_type: BaseEffects::Static,
            speed: 1,
            brightness: 1,
            rgb_values: [0u8; 12],
        };
        assert(s.rgb_values@ =~= Seq::new(12, |i: int| 0u8));
        s
    }

    /// Whether the current mode shows the zone colours.
    pub fn accepts_colors(&self) -> (r: bool)
        ensures
            r == spec_accepts_colors(self.effect_type),
    {
        match self.effect_type {
            BaseEffects::Static | BaseEffects::Breath => true,
            _ => false,
        }
    }

    /// Selects a hardware mode.
    pub fn set_effect(&mut self, effect: BaseEffects)
        ensures
            *final(self) == (LightingState { effect_type: effect, ..*old(self) }),
    {
        self.effect_type = effect;
    }

    /// Sets the speed; refused outside 1..=4.
    pub fn set_speed(&mut self, speed: u8) -> (r: Result<(), RangeError>)
        ensures
            SPEED_MIN <= speed <= SPEED_MAX ==> r is Ok && *final(self) == (LightingState { speed: speed, ..*old(self) }),
            !(SPEED_MIN <= speed <= SPEED_MAX) ==> r == Err::<(), RangeError>(RangeError { kind: RangeErrorKind::Speed }) && *final(self) == *old(self),
    {
        if speed < SPEED_MIN || speed > SPEED_MAX {
            return Err(RangeError { kind: RangeErrorKind::Speed });
        }
        self.speed = speed;
        Ok(())
    }

    /// Sets the brightness level; refused outside 1..=2.
    pub fn set_brightness(&mut self, brightness: u8) -> (r: Result<(), RangeError>)
        ensures
            BRIGHTNESS_MIN <= brightness <= BRIGHTNESS_MAX ==> r is Ok && *final(self) == (LightingState { brightness: brightness, ..*old(self) }),
            !(BRIGHTNESS_MIN <= brightness <= BRIGHTNESS_MAX) ==> r == Err::<(), RangeError>(RangeError { kind: RangeErrorKind::Brightness }) && *final(self) == *old(self),
    {
        if brightness < BRIGHTNESS_MIN || brightness > BRIGHTNESS_MAX {
            return Err(RangeError { kind: RangeErrorKind::Brightness });
        }
        self.brightness = brightness;
        Ok(())
    }

    /// Sets the colour of one zone; refused for a zone index above 3.
    pub fn set_zone_by_index(&mut self, zone_index: u8, new_values: [u8; 3]) -> (r: Result<(), RangeError>)
        ensures
            zone_index <= ZONE_MAX ==> {
                &&& r is Ok
                &&& final(self).effect_type == old(self).effect_type
                &&& final(self).speed == old(self).speed
                &&& final(self).brightness == old(self).brightness
                &&& final(self).rgb_values@ == old(self).rgb_values@
                        .update(zone_index * 3, new_values@[0])
                        .update(zone_index * 3 + 1, new_values@[1])
                        .update(zone_index * 3 + 2, new_values@[2])
            },
            zone_index > ZONE_MAX ==> r == Err::<(), RangeError>(RangeError { kind: RangeErrorKind::Zone }) && *final(self) == *old(self),
    {
        if zone_index > ZONE_MAX {
            return Err(RangeError { kind: RangeErrorKind::Zone });
        }
        let base = (zone_index * 3) as usize;
        self.rgb_values[base] = new_values[0];
        self.rgb_values[base + 1] = new_values[1];
        self.rgb_values[base + 2] = new_values[2];
        Ok(())
    }

    /// Replaces all twelve colour bytes, if the current mode shows colours.
    /// Returns whether it did.
    pub fn set_colors_to(&mut self, new_values: &[u8; 12]) -> (applied: bool)
        ensures
            applied == spec_accepts_colors(old(self).effect_type),
            applied ==> *final(self) == (LightingState { rgb_values: *new_values, ..*old(self) }),
            !applied ==> *final(self) == *old(self),
    {
        if self.accepts_colors() {
            self.rgb_values = *new_values;
            true
        } else {
            false
        }
    }

    /// Gives all four zones one colour, if the current mode shows colours.
    /// Returns whether it did.
    pub fn solid_set_colors_to(&mut self, new_values: [u8; 3]) -> (applied: bool)
        ensures
            applied == spec_accepts_colors(old(self).effect_type),
            applied ==> {
                &&& final(self).effect_type == old(self).effect_type
                &&& final(self).speed == old(self).speed
                &&& final(self).brightness == old(self).brightness
                &&& forall|i: int| 0 <= i < 12 ==> #[trigger] final(self).rgb_values@[i] == new_values@[i % 3]
            },
            !applied ==> *final(self) == *old(self),
    {
        if !self.accepts_colors() {
            return false;
        }
        let mut i: usize = 0;
        while i < 12
            invariant
                i <= 12,
                i % 3 == 0,
                self.effect_type == old(self).effect_type,
                self.speed == old(self).speed,
                self.brightness == old(self).brightness,
                forall|j: int| 0 <= j < i ==> #[trigger] self.rgb_values@[j] == new_values@[j % 3],
            decreases 12 - i,
        {
            self.rgb_values[i] = new_values[0];
            self.rgb_values[i + 1] = new_values[1];
            self.rgb_values[i + 2] = new_values[2];
            i = i + 3;
        }
        true
    }
}


/// The legacy (33-byte) report that puts a state on the keyboard.
pub fn build_legacy_payload(state: &LightingState) -> (payload: [u8; 33])
    ensures
        payload@ == spec_legacy_payload(*state),
{
    let mut payload: [u8; 33] = [0u8; 33];
    payload[0] = 0xcc;
    payload[1] = 0x16;
    let code: u8 = match state.effect_type {
        BaseEffects::Static => 0x01,
        BaseEffects::Breath => 0x03,
        BaseEffects::Smooth => 0x06,
        BaseEffects::LeftWave => {
            payload[19] = 0x1;
            0x04
        },
        BaseEffects::RightWave => {
            payload[18] = 0x1;
            0x04
        },
    };
    payload[2] = code;
    payload[3] = state.speed;
    payload[4] = state.brightness;
    if state.accepts_colors() {
        let mut i: usize = 0;
        while i < 12
            invariant
                i <= 12,
                spec_accepts_colors(state.effect_type),
                forall|j: int| 0 <= j < 5 ==> payload@[j] == legacy_byte(*state, j),
                forall|j: int| 5 <= j < 5 + i ==> payload@[j] == legacy_byte(*state, j),
                forall|j: int| 5 + i <= j < 33 ==> payload@[j] == 0,
            decreases 12 - i,
        {
            payload[5 + i] = state.rgb_values[i];
            i = i + 1;
        }
    }
    assert(payload@ =~= spec_legacy_payload(*state));
    payload
}

/// The C2 brightness byte: 50 for level 1, 100 otherwise.
pub fn c2_brightness_byte(brightness: u8) -> (b: u8)
    ensures
        b == spec_c2_brightness(brightness),
{
    match brightness {
        1 => 50,
        _ => 100,
    }
}

/// A C2 (65-byte) report with the given command byte; when `finished`, it
/// also carries the brightness byte.
pub fn build_c2_payload(state: &LightingState, command: u8, finished: bool) -> (payload: [u8; 65])
    ensures
        payload@ == spec_c2_payload(*state, command, finished),
{
    let mut payload: [u8; 65] = [0u8; 65];
    payload[0] = 0x01;
    payload[1] = command;
    payload[2] = 0x01;
    payload[3] = 0x01;
    let mut i: usize = 0;
    while i < 12
        invariant
            i <= 12,
            forall|j: int| 0 <= j < 4 + i ==> payload@[j] == c2_byte(*state, command, false, j),
            forall|j: int| 4 + i <= j < 65 ==> payload@[j] == 0,
        decreases 12 - i,
    {
        payload[4 + i] = state.rgb_values[i];
        i = i + 1;
    }
    if finished {
        payload[32] = c2_brightness_byte(state.brightness);
    }
    assert(payload@ =~= spec_c2_payload(*state, command, finished));
    payload
}

/// The C2 command byte tried first ("set lighting").
pub const C2_PRIMARY_COMMAND: u8 = 0x0b;
/// The C2 command byte some controllers need instead.
pub const C2_FALLBACK_COMMAND: u8 = 0x02;
/// Milliseconds to wait before writing again to a busy controller.
pub const BUSY_RETRY_DELAY_MS: u64 = 15;
/// Milliseconds to wait after each handshake report.
pub const HANDSHAKE_DELAY_MS: u64 = 50;

/// Where a refresh of the keyboard stands.
#[derive(Clone, Copy, Debug, PartialEq, Eq, Structural)]
pub enum RefreshStep {
    /// Send the legacy report.
    LegacyReport,
    /// Write the C2 report with the primary command.
    C2Primary,
    /// The primary command was refused: write it with the fallback command.
    C2Fallback,
    /// Write the finished C2 report (with brightness) with this command.
    C2Final { command: u8 },
    /// The controller was busy: write the finished report once more.
    C2Retry { command: u8 },
    /// Nothing more to send.
    Done,
}

/// What the device said to a write.
#[derive(Clone, Copy, Debug, PartialEq, Eq, Structural)]
pub enum WriteOutcome {
    Written,
    /// Refused because an overlapped operation was still in progress.
    Busy,
    Failed,
}

/// A report to put on the wire.
#[derive(Clone, Copy, Debug)]
pub enum RefreshAction {
    /// Send as a feature report.
    FeatureReport([u8; 33]),
    /// Write as an output report.
    Write([u8; 65]),
    /// The refresh is over.
    Finish,
}

/// The first step of a refresh.
pub open spec fn spec_refresh_start(protocol: ProtocolType) -> RefreshStep {
    match protocol {
        ProtocolType::Legacy => RefreshStep::LegacyReport,
        ProtocolType::C2 => RefreshStep::C2Primary,
    }
}

/// The step that follows a write.
pub open spec fn spec_refresh_next(step: RefreshStep, outcome: WriteOutcome) -> RefreshStep {
    match step {
        RefreshStep::LegacyReport => RefreshStep::Done,
        RefreshStep::C2Primary => if outcome == WriteOutcome::Written {
            RefreshStep::C2Final { command: C2_PRIMARY_COMMAND }
        } else {
            RefreshStep::C2Fallback
        },
        RefreshStep::C2Fallback => RefreshStep::C2Final { command: C2_FALLBACK_COMMAND },
        RefreshStep::C2Final { command } => if outcome == WriteOutcome::Busy {
            RefreshStep::C2Retry { command }
        } else {
            RefreshStep::Done
        },
        RefreshStep::C2Retry { .. } => RefreshStep::Done,
        RefreshStep::Done => RefreshStep::Done,
    }
}

/// How many writes a refresh can still make from a step.
pub open spec fn refresh_writes_left(step: RefreshStep) -> nat {
    match step {
        RefreshStep::LegacyReport => 1,
        RefreshStep::C2Primary => 4,
        RefreshStep::C2Fallback => 3,
        RefreshStep::C2Final { .. } => 2,
        RefreshStep::C2Retry { .. } => 1,
        RefreshStep::Done => 0,
    }
}

/// The first step of refreshing a keyboard that speaks `protocol`.
pub fn refresh_start(protocol: ProtocolType) -> (step: RefreshStep)
    ensures
        step == spec_refresh_start(protocol),
{
    match protocol {
        ProtocolType::Legacy => RefreshStep::LegacyReport,
        ProtocolType::C2 => RefreshStep::C2Primary,
    }
}

/// The report to send at a step of a refresh.
pub fn refresh_action(state: &LightingState, step: RefreshStep) -> (action: RefreshAction)
    ensures
        match step {
            RefreshStep::LegacyReport => action matches RefreshAction::FeatureReport(p) && p@ == spec_legacy_payload(*state),
            RefreshStep::C2Primary => action matches RefreshAction::Write(p) && p@ == spec_c2_payload(*state, C2_PRIMARY_COMMAND, false),
            RefreshStep::C2Fallback => action matches RefreshAction::Write(p) && p@ == spec_c2_payload(*state, C2_FALLBACK_COMMAND, false),
            RefreshStep::C2Final { command } => action matches RefreshAction::Write(p) && p@ == spec_c2_payload(*state, command, true),
            RefreshStep::C2Retry { command } => action matches RefreshAction::Write(p) && p@ == spec_c2_payload(*state, command, true),
            RefreshStep::Done => action is Finish,
        },
{
    match step {
        RefreshStep::LegacyReport => RefreshAction::FeatureReport(build_legacy_payload(state)),
        RefreshStep::C2Primary => RefreshAction::Write(build_c2_payload(state, C2_PRIMARY_COMMAND, false)),
        RefreshStep::C2Fallback => RefreshAction::Write(build_c2_payload(state, C2_FALLBACK_COMMAND, false)),
        RefreshStep::C2Final { command } => RefreshAction::Write(build_c2_payload(state, command, true)),
        RefreshStep::C2Retry { command } => RefreshAction::Write(build_c2_payload(state, command, true)),
        RefreshStep::Done => RefreshAction::Finish,
    }
}

/// Milliseconds to wait before the report of a step.
pub fn refresh_delay_ms(step: RefreshStep) -> (ms: u64)
    ensures
        ms == (if step is C2Retry { BUSY_RETRY_DELAY_MS } else { 0 }),
{
    match step {
        RefreshStep::C2Retry { .. } => BUSY_RETRY_DELAY_MS,
        _ => 0,
    }
}

/// The step after a write with the given outcome.
pub fn refresh_next(step: RefreshStep, outcome: WriteOutcome) -> (next: RefreshStep)
    ensures
        next == spec_refresh_next(step, outcome),
{
    match step {
        RefreshStep::LegacyReport => RefreshStep::Done,
        RefreshStep::C2Primary => if outcome == WriteOutcome::Written {
            RefreshStep::C2Final { command: C2_PRIMARY_COMMAND }
        } else {
            RefreshStep::C2Fallback
        },
        RefreshStep::C2Fallback => RefreshStep::C2Final { command: C2_FALLBACK_COMMAND },
        RefreshStep::C2Final { command } => if outcome == WriteOutcome::Busy {
            RefreshStep::C2Retry { command }
        } else {
            RefreshStep::Done
        },
        RefreshStep::C2Retry { .. } => RefreshStep::Done,
        RefreshStep::Done => RefreshStep::Done,
    }
}

/// Classifies a write error by its message: the controller is busy when the
/// message names the overlapped-I/O code 0x000003E5 or says "in progress".
pub fn classify_write_error(message: &str) -> (outcome: WriteOutcome)
    ensures
        outcome == (if seq_contains(message@, "0x000003E5"@) || seq_contains(message@, "in progress"@) {
            WriteOutcome::Busy
        } else {
            WriteOutcome::Failed
        }),
{
    if str_contains(message, "0x000003E5") || str_contains(message, "in progress") {
        WriteOutcome::Busy
    } else {
        WriteOutcome::Failed
    }
}

/// A refresh ends: every write brings it strictly closer to `Done`, a
/// legacy refresh makes one write and a C2 refresh at most four.
pub proof fn lemma_refresh_terminates(step: RefreshStep, outcome: WriteOutcome)
    requires
        step != RefreshStep::Done,
    ensures
        refresh_writes_left(spec_refresh_next(step, outcome)) < refresh_writes_left(step),
        refresh_writes_left(spec_refresh_start(ProtocolType::Legacy)) == 1,
        refresh_writes_left(spec_refresh_start(ProtocolType::C2)) == 4,
{
}

/// A C2 refresh always reaches the finished report (with brightness): the
/// first two steps lead to `C2Fallback` or `C2Final`, never to `Done`.
pub proof fn lemma_c2_refresh_reaches_final(o1: WriteOutcome, o2: WriteOutcome)
    ensures
        spec_refresh_next(RefreshStep::C2Primary, o1) is C2Final
            || spec_refresh_next(spec_refresh_next(RefreshStep::C2Primary, o1), o2) is C2Final,
{
}

/// What a colour transition does at a step.
#[derive(Clone, Copy, Debug, PartialEq, Eq, Structural)]
pub enum TransitionAction {
    /// Show the next intermediate frame.
    Frame,
    /// Stop fading and show the target colours.
    Snap,
}

/// Whether a transition runs at all: only in a mode that shows colours, and
/// only when no stop was asked for before it began.
pub fn transition_starts(state: &LightingState, stopped: bool) -> (r: bool)
    ensures
        r == (spec_accepts_colors(state.effect_type) && !stopped),
{
    state.accepts_colors() && !stopped
}

/// The action at step `step_num` (counted from 1) of a transition in
/// `steps` steps: an intermediate frame, unless a stop was asked for or all
/// the steps are done, in which case the target is shown.
pub open spec fn spec_transition_step(step_num: int, steps: u8, stopped: bool) -> TransitionAction {
    if stopped || step_num > steps {
        TransitionAction::Snap
    } else {
        TransitionAction::Frame
    }
}

/// The action at a step of a transition.
pub fn transition_step(step_num: u16, steps: u8, stopped: bool) -> (a: TransitionAction)
    ensures
        a == spec_transition_step(step_num as int, steps, stopped),
{
    if stopped || step_num > steps as u16 {
        TransitionAction::Snap
    } else {
        TransitionAction::Frame
    }
}

/// A transition that runs ends on the target: it shows at most `steps`
/// intermediate frames, and the step after them shows the target.
pub proof fn lemma_transition_ends(steps: u8, stopped: bool, step_num: int)
    ensures
        spec_transition_step(steps as int + 1, steps, stopped) == TransitionAction::Snap,
        spec_transition_step(step_num, steps, stopped) == TransitionAction::Frame ==> step_num <= steps,
{
}

/// The 65-byte C2 handshake report for one unlock code.
pub open spec fn spec_c2_handshake(code: u8) -> Seq<u8> {
    Seq::new(65, |i: int| if i == 0 || i == 1 || i == 3 { 1u8 } else if i == 2 { code } else { 0u8 })
}

/// The 33-byte legacy handshake report (switch to manual mode).
pub open spec fn spec_legacy_handshake() -> Seq<u8> {
    Seq::new(33, |i: int| if i == 1 { 2u8 } else if i == 2 { 1u8 } else { 0u8 })
}

/// The unlock codes swept by the C2 handshake, in order.
pub fn c2_handshake_codes() -> (codes: [u8; 4])
    ensures
        codes@ == seq![0x01u8, 0x08u8, 0x02u8, 0x04u8],
{
    let codes: [u8; 4] = [0x01, 0x08, 0x02, 0x04];
    assert(codes@ =~= seq![0x01u8, 0x08u8, 0x02u8, 0x04u8]);
    codes
}

/// The C2 handshake report for one unlock code.
pub fn c2_handshake_payload(code: u8) -> (payload: [u8; 65])
    ensures
        payload@ == spec_c2_handshake(code),
{
    let mut payload: [u8; 65] = [0u8; 65];
    payload[0] = 0x01;
    payload[1] = 0x01;
    payload[2] = code;
    payload[3] = 0x01;
    assert(payload@ =~= spec_c2_handshake(code));
    payload
}

/// The legacy handshake report.
pub fn legacy_handshake_payload() -> (payload: [u8; 33])
    ensures
        payload@ == spec_legacy_handshake(),
{
    let mut payload: [u8; 33] = [0u8; 33];
    payload[1] = 0x02;
    payload[2] = 0x01;
    assert(payload@ =~= spec_legacy_handshake());
    payload
}


/// One entry of the table of known controllers: vendor id, product id,
/// usage page, usage, protocol.
pub type KnownDevice = (u16, u16, u16, u16, ProtocolType);

/// The known controllers, in the order in which they are tried: the legacy
/// interfaces first, then the 2024 C2 interfaces, then the alternatives.
pub open spec fn spec_known_device_infos() -> Seq<KnownDevice> {
    seq![
        (0x048du16, 0xc993u16, 0xff89u16, 0x00ccu16, ProtocolType::Legacy),
        (0x048du16, 0xc996u16, 0xff89u16, 0x00ccu16, ProtocolType::Legacy),
        (0x048du16, 0xc995u16, 0xff89u16, 0x00ccu16, ProtocolType::Legacy),
        (0x048du16, 0xc994u16, 0xff89u16, 0x00ccu16, ProtocolType::Legacy),
        (0x048du16, 0xc985u16, 0xff89u16, 0x00ccu16, ProtocolType::Legacy),
        (0x048du16, 0xc984u16, 0xff89u16, 0x00ccu16, ProtocolType::Legacy),
        (0x048du16, 0xc983u16, 0xff89u16, 0x00ccu16, ProtocolType::Legacy),
        (0x048du16, 0xc975u16, 0xff89u16, 0x00ccu16, ProtocolType::Legacy),
        (0x048du16, 0xc973u16, 0xff89u16, 0x00ccu16, ProtocolType::Legacy),
        (0x048du16, 0xc965u16, 0xff89u16, 0x00ccu16, ProtocolType::Legacy),
        (0x048du16, 0xc963u16, 0xff89u16, 0x00ccu16, ProtocolType::Legacy),
        (0x048du16, 0xc955u16, 0xff89u16, 0x00ccu16, ProtocolType::Legacy),
        (0x048du16, 0xc993u16, 0xffc2u16, 0x0004u16, ProtocolType::C2),
        (0x048du16, 0xc996u16, 0xffc2u16, 0x0004u16, ProtocolType::C2),
        (0x048du16, 0xc993u16, 0xff89u16, 0x0010u16, ProtocolType::Legacy),
        (0x048du16, 0xc996u16, 0xff89u16, 0x0010u16, ProtocolType::Legacy),
        (0x048du16, 0xc993u16, 0xff89u16, 0x0007u16, ProtocolType::Legacy),
        (0x048du16, 0xc996u16, 0xff89u16, 0x0007u16, ProtocolType::Legacy),
    ]
}

/// The table of known controllers.
pub fn known_device_infos() -> (infos: [KnownDevice; 18])
    ensures
        infos@ == spec_known_device_infos(),
{
    let infos: [KnownDevice; 18] = [
        (0x048d, 0xc993, 0xff89, 0x00cc, ProtocolType::Legacy),
        (0x048d, 0xc996, 0xff89, 0x00cc, ProtocolType::Legacy),
        (0x048d, 0xc995, 0xff89, 0x00cc, ProtocolType::Legacy),
        (0x048d, 0xc994, 0xff89, 0x00cc, ProtocolType::Legacy),
        (0x048d, 0xc985, 0xff89, 0x00cc, ProtocolType::Legacy),
        (0x048d, 0xc984, 0xff89, 0x00cc, ProtocolType::Legacy),
        (0x048d, 0xc983, 0xff89, 0x00cc, ProtocolType::Legacy),
        (0x048d, 0xc975, 0xff89, 0x00cc, ProtocolType::Legacy),
        (0x048d, 0xc973, 0xff89, 0x00cc, ProtocolType::Legacy),
        (0x048d, 0xc965, 0xff89, 0x00cc, ProtocolType::Legacy),
        (0x048d, 0xc963, 0xff89, 0x00cc, ProtocolType::Legacy),
        (0x048d, 0xc955, 0xff89, 0x00cc, ProtocolType::Legacy),
        (0x048d, 0xc993, 0xffc2, 0x0004, ProtocolType::C2),
        (0x048d, 0xc996, 0xffc2, 0x0004, ProtocolType::C2),
        (0x048d, 0xc993, 0xff89, 0x0010, ProtocolType::Legacy),
        (0x048d, 0xc996, 0xff89, 0x0010, ProtocolType::Legacy),
        (0x048d, 0xc993, 0xff89, 0x0007, ProtocolType::Legacy),
        (0x048d, 0xc996, 0xff89, 0x0007, ProtocolType::Legacy),
    ];
    assert(infos@ =~= spec_known_device_infos());
    infos
}

/// A HID interface as enumerated on the system.
#[derive(Debug)]
pub struct DeviceInfo {
    pub vendor_id: u16,
    pub product_id: u16,
    pub usage_page: u16,
    pub usage: u16,
    pub manufacturer: String,
    pub product: String,
}

impl Clone for DeviceInfo {
    fn clone(&self) -> (r: Self)
        ensures
            r == *self,
    {
        DeviceInfo {
            vendor_id: self.vendor_id,
            product_id: self.product_id,
            usage_page: self.usage_page,
            usage: self.usage,
            manufacturer: self.manufacturer.clone(),
            product: self.product.clone(),
        }
    }
}

/// Whether an interface is a known controller. Where usages are compared
/// (on Windows) vendor, product, usage page and usage must all agree;
/// elsewhere vendor and product suffice.
pub open spec fn spec_device_matches(d: DeviceInfo, k: KnownDevice, match_usage: bool) -> bool {
    &&& d.vendor_id == k.0
    &&& d.product_id == k.1
    &&& match_usage ==> d.usage_page == k.2 && d.usage == k.3
}

fn device_matches(d: &DeviceInfo, k: &KnownDevice, match_usage: bool) -> (r: bool)
    ensures
        r == spec_device_matches(*d, *k, match_usage),
{
    d.vendor_id == k.0 && d.product_id == k.1 && (!match_usage || (d.usage_page == k.2 && d.usage == k.3))
}

/// Picks the controller to drive from the enumerated interfaces: the first
/// entry of the known table (in its order) that some interface matches,
/// and the first interface that matches it. Returns the table index and
/// the interface index.
pub fn select_known_device(devices: &Vec<DeviceInfo>, match_usage: bool) -> (r: Option<(usize, usize)>)
    ensures
        match r {
            Some((k, d)) => {
                &&& k < 18
                &&& d < devices@.len()
                &&& spec_device_matches(devices@[d as int], spec_known_device_infos()[k as int], match_usage)
                &&& forall|k2: int, d2: int| 0 <= k2 < k && 0 <= d2 < devices@.len() ==>
                        !spec_device_matches(#[trigger] devices@[d2], #[trigger] spec_known_device_infos()[k2], match_usage)
                &&& forall|d2: int| 0 <= d2 < d ==>
                        !spec_device_matches(#[trigger] devices@[d2], spec_known_device_infos()[k as int], match_usage)
            },
            None => forall|k2: int, d2: int| 0 <= k2 < 18 && 0 <= d2 < devices@.len() ==>
                !spec_device_matches(#[trigger] devices@[d2], #[trigger] spec_known_device_infos()[k2], match_usage),
        },
        (exists|i: int| 0 <= i < devices@.len() && is_known_legacy_lighting(#[trigger] devices@[i])) ==> r is Some,
{
    let known = known_device_infos();
    let mut k: usize = 0;
    while k < 18
        invariant
            k <= 18,
            known@ == spec_known_device_infos(),
            forall|k2: int, d2: int| 0 <= k2 < k && 0 <= d2 < devices@.len() ==>
                !spec_device_matches(#[trigger] devices@[d2], #[trigger] spec_known_device_infos()[k2], match_usage),
        decreases 18 - k,
    {
        let mut d: usize = 0;
        while d < devices.len()
            invariant
                k < 18,
                d <= devices@.len(),
                known@ == spec_known_device_infos(),
                forall|k2: int, d2: int| 0 <= k2 < k && 0 <= d2 < devices@.len() ==>
                    !spec_device_matches(#[trigger] devices@[d2], #[trigger] spec_known_device_infos()[k2], match_usage),
                forall|d2: int| 0 <= d2 < d ==>
                    !spec_device_matches(#[trigger] devices@[d2], spec_known_device_infos()[k as int], match_usage),
            decreases devices@.len() - d,
        {
            if device_matches(&devices[d], &known[k], match_usage) {
                return Some((k, d));
            }
            d = d + 1;
        }
        k = k + 1;
    }
    proof {
        if exists|i: int| 0 <= i < devices@.len() && is_known_legacy_lighting(#[trigger] devices@[i]) {
            let i = choose|i: int| 0 <= i < devices@.len() && is_known_legacy_lighting(#[trigger] devices@[i]);
            lemma_known_keyboards_found(devices@[i], match_usage);
            let k2 = choose|k2: int| 0 <= k2 < 12 && spec_device_matches(devices@[i], #[trigger] spec_known_device_infos()[k2], match_usage)
                && spec_known_device_infos()[k2].1 == devices@[i].product_id;
            assert(!spec_device_matches(devices@[i], spec_known_device_infos()[k2], match_usage));
        }
    }
    None
}

/// The protocol guessed for an unknown controller from its usage page and
/// usage, when the known table finds nothing.
pub open spec fn spec_fallback_protocol(usage_page: u16, usage: u16) -> Option<ProtocolType> {
    if usage_page == 0xffc2 && usage == 0x0004 {
        Some(ProtocolType::C2)
    } else if usage_page == 0xff89 && (usage == 0x00cc || usage == 0x0010) {
        Some(ProtocolType::Legacy)
    } else {
        None
    }
}

/// The protocol guessed for an unknown controller.
pub fn fallback_protocol(usage_page: u16, usage: u16) -> (r: Option<ProtocolType>)
    ensures
        r == spec_fallback_protocol(usage_page, usage),
{
    match (usage_page, usage) {
        (0xffc2, 0x0004) => Some(ProtocolType::C2),
        (0xff89, 0x00cc) => Some(ProtocolType::Legacy),
        (0xff89, 0x0010) => Some(ProtocolType::Legacy),
        _ => None,
    }
}

/// The interfaces worth trying when no known controller is present, with
/// their guessed protocol: ITE interfaces whose usage names a lighting
/// interface, in enumeration order. Each entry holds the interface's index.
pub open spec fn spec_fallback_candidates(devices: Seq<DeviceInfo>) -> Seq<(usize, ProtocolType)>
    decreases devices.len(),
{
    if devices.len() == 0 {
        Seq::empty()
    } else {
        let last = devices.last();
        let rest = spec_fallback_candidates(devices.drop_last());
        if last.vendor_id == ITE_VENDOR_ID && spec_fallback_protocol(last.usage_page, last.usage) is Some {
            rest.push(((devices.len() - 1) as usize, spec_fallback_protocol(last.usage_page, last.usage).unwrap()))
        } else {
            rest
        }
    }
}

/// The interfaces worth trying when no known controller is present.
pub fn fallback_candidates(devices: &Vec<DeviceInfo>) -> (r: Vec<(usize, ProtocolType)>)
    ensures
        r@ == spec_fallback_candidates(devices@),
{
    let mut r: Vec<(usize, ProtocolType)> = Vec::new();
    let mut i: usize = 0;
    while i < devices.len()
        invariant
            i <= devices@.len(),
            r@ == spec_fallback_candidates(devices@.subrange(0, i as int)),
        decreases devices@.len() - i,
    {
        let d = &devices[i];
        let proto = fallback_protocol(d.usage_page, d.usage);
        proof {
            assert(devices@.subrange(0, i + 1).drop_last() =~= devices@.subrange(0, i as int));
        }
        if d.vendor_id == ITE_VENDOR_ID {
            if let Some(p) = proto {
                r.push((i, p));
            }
        }
        i = i + 1;
    }
    assert(devices@.subrange(0, devices@.len() as int) =~= devices@);
    r
}

/// The ITE interfaces (vendor 0x048d) among the enumerated ones, in order.
pub open spec fn spec_ite_devices(devices: Seq<DeviceInfo>) -> Seq<DeviceInfo>
    decreases devices.len(),
{
    if devices.len() == 0 {
        Seq::empty()
    } else {
        let rest = spec_ite_devices(devices.drop_last());
        if devices.last().vendor_id == ITE_VENDOR_ID {
            rest.push(devices.last())
        } else {
            rest
        }
    }
}

/// The ITE interfaces among the enumerated ones (the scan for IT829x
/// controllers).
pub fn scan_it829x_devices(devices: &Vec<DeviceInfo>) -> (r: Vec<DeviceInfo>)
    ensures
        r@ == spec_ite_devices(devices@),
{
    let mut r: Vec<DeviceInfo> = Vec::new();
    let mut i: usize = 0;
    while i < devices.len()
        invariant
            i <= devices@.len(),
            r@ == spec_ite_devices(devices@.subrange(0, i as int)),
        decreases devices@.len() - i,
    {
        proof {
            assert(devices@.subrange(0, i + 1).drop_last() =~= devices@.subrange(0, i as int));
        }
        if devices[i].vendor_id == ITE_VENDOR_ID {
            r.push(devices[i].clone());
        }
        i = i + 1;
    }
    assert(devices@.subrange(0, devices@.len() as int) =~= devices@);
    r
}

/// A manufacturer or product string, or "Unknown" where the device gives none.
pub fn name_or_unknown(name: Option<String>) -> (r: String)
    ensures
        r@ == match name {
            Some(n) => n@,
            None => "Unknown"@,
        },
{
    match name {
        Some(n) => n,
        None => String::from_str("Unknown"),
    }
}


/// What a setter writes is what the next legacy report carries: the mode
/// byte, speed and brightness always, and the twelve colour bytes whenever
/// the mode shows colours.
pub proof fn lemma_legacy_payload_reflects_state(s: LightingState)
    ensures
        spec_legacy_payload(s)[2] == spec_effect_code(s.effect_type),
        spec_legacy_payload(s)[3] == s.speed,
        spec_legacy_payload(s)[4] == s.brightness,
        spec_accepts_colors(s.effect_type) ==> spec_legacy_payload(s).subrange(5, 17) == s.rgb_values@,
        !spec_accepts_colors(s.effect_type) ==> forall|i: int| 5 <= i < 17 ==> spec_legacy_payload(s)[i] == 0,
{
    if spec_accepts_colors(s.effect_type) {
        assert(spec_legacy_payload(s).subrange(5, 17) =~= s.rgb_values@);
    }
}

/// What a setter writes is what the next C2 report carries: the twelve
/// colour bytes always, and the brightness once the report is finished.
pub proof fn lemma_c2_payload_reflects_state(s: LightingState, command: u8)
    ensures
        spec_c2_payload(s, command, true).subrange(4, 16) == s.rgb_values@,
        spec_c2_payload(s, command, true)[32] == spec_c2_brightness(s.brightness),
        spec_c2_payload(s, command, false)[32] == 0,
{
    assert(spec_c2_payload(s, command, true).subrange(4, 16) =~= s.rgb_values@);
}

/// Every fallback candidate is an ITE interface with a lighting usage, the
/// candidates keep the enumeration order, and every such interface is among
/// them.
pub proof fn lemma_fallback_candidates_sound(devices: Seq<DeviceInfo>)
    requires
        devices.len() <= usize::MAX,
    ensures
        forall|j: int| 0 <= j < spec_fallback_candidates(devices).len() ==> {
            let (i, p) = #[trigger] spec_fallback_candidates(devices)[j];
            &&& i < devices.len()
            &&& devices[i as int].vendor_id == ITE_VENDOR_ID
            &&& spec_fallback_protocol(devices[i as int].usage_page, devices[i as int].usage) == Some(p)
        },
        forall|j: int, k: int| 0 <= j < k < spec_fallback_candidates(devices).len() ==>
            (#[trigger] spec_fallback_candidates(devices)[j]).0 < (#[trigger] spec_fallback_candidates(devices)[k]).0,
        forall|i: int| 0 <= i < devices.len() && (#[trigger] devices[i]).vendor_id == ITE_VENDOR_ID
            && spec_fallback_protocol(devices[i].usage_page, devices[i].usage) is Some ==>
            exists|j: int| 0 <= j < spec_fallback_candidates(devices).len()
                && (#[trigger] spec_fallback_candidates(devices)[j]).0 == i,
    decreases devices.len(),
{
    if devices.len() > 0 {
        let prefix = devices.drop_last();
        lemma_fallback_candidates_sound(prefix);
        let rest = spec_fallback_candidates(prefix);
        let all = spec_fallback_candidates(devices);
        assert forall|j: int| 0 <= j < rest.len() implies {
            let (i, p) = #[trigger] rest[j];
            &&& i < devices.len() - 1
            &&& devices[i as int] == prefix[i as int]
        } by {}
        let last = devices.last();
        assert forall|i: int| 0 <= i < devices.len() - 1 && (#[trigger] devices[i]).vendor_id == ITE_VENDOR_ID
            && spec_fallback_protocol(devices[i].usage_page, devices[i].usage) is Some implies
            exists|j: int| 0 <= j < all.len() && (#[trigger] all[j]).0 == i by {
            assert(prefix[i] == devices[i]);
            let j = choose|j: int| 0 <= j < rest.len() && (#[trigger] rest[j]).0 == i;
            assert(all[j] == rest[j]) by {
                if last.vendor_id == ITE_VENDOR_ID && spec_fallback_protocol(last.usage_page, last.usage) is Some {
                    assert(all == rest.push(((devices.len() - 1) as usize, spec_fallback_protocol(last.usage_page, last.usage).unwrap())));
                }
            }
        }
        if last.vendor_id == ITE_VENDOR_ID && spec_fallback_protocol(last.usage_page, last.usage) is Some {
            assert(all[rest.len() as int].0 == devices.len() - 1);
            assert(all == rest.push(((devices.len() - 1) as usize, spec_fallback_protocol(last.usage_page, last.usage).unwrap())));
            assert forall|j: int| 0 <= j < all.len() implies {
                let (i, p) = #[trigger] all[j];
                &&& i < devices.len()
                &&& devices[i as int].vendor_id == ITE_VENDOR_ID
                &&& spec_fallback_protocol(devices[i as int].usage_page, devices[i as int].usage) == Some(p)
            } by {
                if j < rest.len() {
                    assert(all[j] == rest[j]);
                }
            }
            assert forall|j: int, k: int| 0 <= j < k < all.len() implies (#[trigger] all[j]).0 < (#[trigger] all[k]).0 by {
                assert(all[j] == rest[j]);
                if k < rest.len() {
                    assert(all[k] == rest[k]);
                }
            }
        } else {
            assert(all == rest);
        }
    }
}

/// The scan keeps exactly the ITE interfaces: everything it returns has the
/// ITE vendor id, every ITE interface is among what it returns, and it never
/// returns more than it was given.
pub proof fn lemma_ite_devices_sound(devices: Seq<DeviceInfo>)
    ensures
        forall|j: int| 0 <= j < spec_ite_devices(devices).len() ==>
            (#[trigger] spec_ite_devices(devices)[j]).vendor_id == ITE_VENDOR_ID,
        forall|i: int| 0 <= i < devices.len() && (#[trigger] devices[i]).vendor_id == ITE_VENDOR_ID ==>
            spec_ite_devices(devices).contains(devices[i]),
        spec_ite_devices(devices).len() <= devices.len(),
    decreases devices.len(),
{
    if devices.len() > 0 {
        let prefix = devices.drop_last();
        lemma_ite_devices_sound(prefix);
        let rest = spec_ite_devices(prefix);
        let all = spec_ite_devices(devices);
        assert forall|i: int| 0 <= i < devices.len() && (#[trigger] devices[i]).vendor_id == ITE_VENDOR_ID
            implies all.contains(devices[i]) by {
            if i < devices.len() - 1 {
                assert(prefix[i] == devices[i]);
                let j = choose|j: int| 0 <= j < rest.len() && rest[j] == devices[i];
                if devices.last().vendor_id == ITE_VENDOR_ID {
                    assert(all == rest.push(devices.last()));
                    assert(all[j] == rest[j]);
                } else {
                    assert(all == rest);
                }
            } else {
                assert(all == rest.push(devices.last()));
                assert(all[rest.len() as int] == devices[i]);
            }
        }
    }
}


/// The reports' fixed bytes, for every state, command and brightness
/// flag. The C2 report opens with report id 0x01, the command, mode 0x01
/// and action 0x01 (apply), whether or not it is finished; it carries the
/// twelve colour bytes from byte 4, and a finished report carries 50 at
/// byte 32 for brightness level 1 and 100 otherwise; every other byte is 0.
/// The legacy report opens with 0xcc and 0x16, carries the mode byte (1
/// static, 3 breath, 6 smooth, 4 for either wave), the speed and the
/// brightness, marks a right wave at byte 18 and a left wave at byte 19.
pub proof fn lemma_report_layout(s: LightingState, command: u8, finished: bool)
    ensures
        spec_c2_payload(s, command, finished).len() == 65,
        spec_c2_payload(s, command, finished)[0] == 0x01,
        spec_c2_payload(s, command, finished)[1] == command,
        spec_c2_payload(s, command, finished)[2] == 0x01,
        spec_c2_payload(s, command, finished)[3] == 0x01,
        forall|i: int| 4 <= i < 16 ==> spec_c2_payload(s, command, finished)[i] == s.rgb_values@[i - 4],
        spec_c2_payload(s, command, finished)[32] == (if !finished { 0u8 } else if s.brightness == 1 { 50u8 } else { 100u8 }),
        forall|i: int| 16 <= i < 65 && i != 32 ==> spec_c2_payload(s, command, finished)[i] == 0,
        forall|i: int| 0 <= i < 65 && i != 32 ==> spec_c2_payload(s, command, true)[i] == spec_c2_payload(s, command, false)[i],
        spec_legacy_payload(s).len() == 33,
        spec_legacy_payload(s)[0] == 0xcc,
        spec_legacy_payload(s)[1] == 0x16,
        spec_legacy_payload(s)[2] == (match s.effect_type {
            BaseEffects::Static => 1u8,
            BaseEffects::Breath => 3u8,
            BaseEffects::Smooth => 6u8,
            BaseEffects::LeftWave => 4u8,
            BaseEffects::RightWave => 4u8,
        }),
        spec_legacy_payload(s)[3] == s.speed,
        spec_legacy_payload(s)[4] == s.brightness,
        spec_legacy_payload(s)[18] == (if s.effect_type == BaseEffects::RightWave { 1u8 } else { 0u8 }),
        spec_legacy_payload(s)[19] == (if s.effect_type == BaseEffects::LeftWave { 1u8 } else { 0u8 }),
        forall|i: int| 20 <= i < 33 ==> spec_legacy_payload(s)[i] == 0,
        spec_legacy_payload(s)[17] == 0,
{
}

/// The known controllers, in priority order: the legacy lighting interfaces
/// (usage page 0xff89, usage 0xcc) of the 2024 LOQ (0xc993, 0xc996), 2024
/// Pro (0xc995), 2024 (0xc994), 2023 Pro (0xc985), 2023 (0xc984), 2023 LOQ
/// (0xc983), 2022 (0xc975), 2022 Ideapad (0xc973), 2021 (0xc965), 2021
/// Ideapad (0xc963) and 2020 (0xc955) models; then the C2 interfaces
/// (0xffc2, 0x0004) of the 2024 LOQ; then its alternative legacy usages
/// 0x0010 and 0x0007. All are ITE (0x048d) controllers.
pub proof fn lemma_known_controllers()
    ensures
        spec_known_device_infos().len() == 18,
        forall|k: int| 0 <= k < 18 ==> (#[trigger] spec_known_device_infos()[k]).0 == 0x048d,
        forall|k: int| 0 <= k < 12 ==> (#[trigger] spec_known_device_infos()[k]).2 == 0xff89
            && spec_known_device_infos()[k].3 == 0x00cc && spec_known_device_infos()[k].4 == ProtocolType::Legacy,
        spec_known_device_infos()[0].1 == 0xc993,
        spec_known_device_infos()[1].1 == 0xc996,
        spec_known_device_infos()[2].1 == 0xc995,
        spec_known_device_infos()[3].1 == 0xc994,
        spec_known_device_infos()[4].1 == 0xc985,
        spec_known_device_infos()[5].1 == 0xc984,
        spec_known_device_infos()[6].1 == 0xc983,
        spec_known_device_infos()[7].1 == 0xc975,
        spec_known_device_infos()[8].1 == 0xc973,
        spec_known_device_infos()[9].1 == 0xc965,
        spec_known_device_infos()[10].1 == 0xc963,
        spec_known_device_infos()[11].1 == 0xc955,
        spec_known_device_infos()[12] == (0x048du16, 0xc993u16, 0xffc2u16, 0x0004u16, ProtocolType::C2),
        spec_known_device_infos()[13] == (0x048du16, 0xc996u16, 0xffc2u16, 0x0004u16, ProtocolType::C2),
        spec_known_device_infos()[14] == (0x048du16, 0xc993u16, 0xff89u16, 0x0010u16, ProtocolType::Legacy),
        spec_known_device_infos()[15] == (0x048du16, 0xc996u16, 0xff89u16, 0x0010u16, ProtocolType::Legacy),
        spec_known_device_infos()[16] == (0x048du16, 0xc993u16, 0xff89u16, 0x0007u16, ProtocolType::Legacy),
        spec_known_device_infos()[17] == (0x048du16, 0xc996u16, 0xff89u16, 0x0007u16, ProtocolType::Legacy),
        forall|j: int, k: int| 0 <= j < k < 12 ==> (#[trigger] spec_known_device_infos()[j]).1 != (#[trigger] spec_known_device_infos()[k]).1,
{
}

/// Whether an interface is the legacy lighting interface (usage page
/// 0xff89, usage 0xcc) of one of the known ITE keyboards.
pub open spec fn is_known_legacy_lighting(d: DeviceInfo) -> bool {
    &&& d.vendor_id == 0x048d
    &&& d.usage_page == 0xff89
    &&& d.usage == 0x00cc
    &&& (d.product_id == 0xc993 || d.product_id == 0xc996 || d.product_id == 0xc995 || d.product_id == 0xc994
        || d.product_id == 0xc985 || d.product_id == 0xc984 || d.product_id == 0xc983 || d.product_id == 0xc975
        || d.product_id == 0xc973 || d.product_id == 0xc965 || d.product_id == 0xc963 || d.product_id == 0xc955)
}

/// A known keyboard's legacy lighting interface is always found: it matches
/// a table entry of its own product among the first twelve, with or without
/// usage matching, and no interface matches a legacy lighting entry of
/// another product.
pub proof fn lemma_known_keyboards_found(d: DeviceInfo, match_usage: bool)
    requires
        is_known_legacy_lighting(d),
    ensures
        exists|k: int| 0 <= k < 12 && spec_device_matches(d, #[trigger] spec_known_device_infos()[k], match_usage)
            && spec_known_device_infos()[k].1 == d.product_id,
        forall|k: int| 0 <= k < 12 && spec_device_matches(d, #[trigger] spec_known_device_infos()[k], match_usage)
            ==> spec_known_device_infos()[k].1 == d.product_id,
{
    lemma_known_controllers();
    let t = spec_known_device_infos();
    if d.product_id == 0xc993 { assert(spec_device_matches(d, t[0], match_usage)); }
    else if d.product_id == 0xc996 { assert(spec_device_matches(d, t[1], match_usage)); }
    else if d.product_id == 0xc995 { assert(spec_device_matches(d, t[2], match_usage)); }
    else if d.product_id == 0xc994 { assert(spec_device_matches(d, t[3], match_usage)); }
    else if d.product_id == 0xc985 { assert(spec_device_matches(d, t[4], match_usage)); }
    else if d.product_id == 0xc984 { assert(spec_device_matches(d, t[5], match_usage)); }
    else if d.product_id == 0xc983 { assert(spec_device_matches(d, t[6], match_usage)); }
    else if d.product_id == 0xc975 { assert(spec_device_matches(d, t[7], match_usage)); }
    else if d.product_id == 0xc973 { assert(spec_device_matches(d, t[8], match_usage)); }
    else if d.product_id == 0xc965 { assert(spec_device_matches(d, t[9], match_usage)); }
    else if d.product_id == 0xc963 { assert(spec_device_matches(d, t[10], match_usage)); }
    else { assert(spec_device_matches(d, t[11], match_usage)); }
}

/// The refresh protocol: a legacy keyboard gets one feature report. A C2
/// keyboard is first written with command 0x0b; if that write is refused
/// the report is written again with command 0x02; then the finished report
/// (with brightness) is written with the command that was accepted (0x0b
/// after a successful first write, 0x02 otherwise), once more if the
/// controller was busy, and the refresh is over.
pub proof fn lemma_refresh_protocol(outcome: WriteOutcome, command: u8)
    ensures
        spec_refresh_start(ProtocolType::Legacy) == RefreshStep::LegacyReport,
        spec_refresh_next(RefreshStep::LegacyReport, outcome) == RefreshStep::Done,
        spec_refresh_start(ProtocolType::C2) == RefreshStep::C2Primary,
        outcome == WriteOutcome::Written ==> spec_refresh_next(RefreshStep::C2Primary, outcome) == (RefreshStep::C2Final { command: 0x0b }),
        outcome != WriteOutcome::Written ==> spec_refresh_next(RefreshStep::C2Primary, outcome) == RefreshStep::C2Fallback,
        spec_refresh_next(RefreshStep::C2Fallback, outcome) == (RefreshStep::C2Final { command: 0x02 }),
        outcome == WriteOutcome::Busy ==> spec_refresh_next(RefreshStep::C2Final { command }, outcome) == (RefreshStep::C2Retry { command }),
        outcome != WriteOutcome::Busy ==> spec_refresh_next(RefreshStep::C2Final { command }, outcome) == RefreshStep::Done,
        spec_refresh_next(RefreshStep::C2Retry { command }, outcome) == RefreshStep::Done,
        spec_refresh_next(RefreshStep::Done, outcome) == RefreshStep::Done,
{
}

/// The handshake reports: the C2 unlock report is 65 bytes reading 0x01,
/// 0x01, the unlock code, 0x01 and then zeros; the legacy report is 33
/// bytes reading 0x00, 0x02, 0x01 and then zeros.
pub proof fn lemma_handshake_layout(code: u8)
    ensures
        spec_c2_handshake(code).len() == 65,
        spec_c2_handshake(code)[0] == 1 && spec_c2_handshake(code)[1] == 1,
        spec_c2_handshake(code)[2] == code && spec_c2_handshake(code)[3] == 1,
        forall|i: int| 4 <= i < 65 ==> spec_c2_handshake(code)[i] == 0,
        spec_legacy_handshake().len() == 33,
        spec_legacy_handshake()[0] == 0 && spec_legacy_handshake()[1] == 2 && spec_legacy_handshake()[2] == 1,
        forall|i: int| 3 <= i < 33 ==> spec_legacy_handshake()[i] == 0,
{
}

/// The protocol guessed for an unknown controller: C2 for usage page
/// 0xffc2 with usage 0x0004, legacy for usage page 0xff89 with usage 0x00cc
/// or 0x0010, and none for anything else.
pub proof fn lemma_fallback_guess(usage_page: u16, usage: u16)
    ensures
        spec_fallback_protocol(usage_page, usage) == Some(ProtocolType::C2) <==> (usage_page == 0xffc2 && usage == 0x0004),
        spec_fallback_protocol(usage_page, usage) == Some(ProtocolType::Legacy)
            <==> (usage_page == 0xff89 && (usage == 0x00cc || usage == 0x0010)),
{
}

} // verus!
