//! The stealth controller's whole-number logic: colours, the 24 logical
//! zones folded onto the 4 physical ones, the legacy packet and its write
//! methods, the candidate interfaces, key-to-zone mapping, labels and the
//! names of the presets.
use vstd::prelude::*;
use crate::driver::{spec_legacy_payload, BaseEffects, LightingState};
use crate::text::{
    push_hex, push_signed_decimal, spec_hex, spec_signed_decimal, str_equals,
};

verus! {

/// Number of logical zones the effects draw on.
pub const NUM_LOGICAL_ZONES: usize = 24;
/// Number of physical zones of the keyboard.
pub const NUM_PHYSICAL_ZONES: usize = 4;

/// A colour.
#[derive(Debug, Clone, Copy, PartialEq, Eq, Structural)]
pub struct RgbColor {
    pub r: u8,
    pub g: u8,
    pub b: u8,
}

impl RgbColor {
    /// The colour with the given components.
    pub fn new(r: u8, g: u8, b: u8) -> (c: Self)
        ensures
            c == (RgbColor { r, g, b }),
    {
        Self { r, g, b }
    }

    /// Black.
    pub fn black() -> (c: Self)
        ensures
            c == (RgbColor { r: 0, g: 0, b: 0 }),
    {
        Self::new(0, 0, 0)
    }

    /// White.
    pub fn white() -> (c: Self)
        ensures
            c == (RgbColor { r: 255, g: 255, b: 255 }),
    {
        Self::new(255, 255, 255)
    }
}

/// How a packet is put on the wire, with its report id.
#[derive(Debug, Clone, Copy, PartialEq, Eq, Structural)]
pub enum WriteMethod {
    FeatureReport(u8),
    OutputReport(u8),
}

/// The report id of a write method.
pub open spec fn spec_report_id(m: WriteMethod) -> u8 {
    match m {
        WriteMethod::FeatureReport(id) => id,
        WriteMethod::OutputReport(id) => id,
    }
}

/// The label of a write method: "feature 0xID" or "output 0xID" with the id
/// in two upper-case hexadecimal digits.
pub open spec fn spec_method_label(m: WriteMethod) -> Seq<char> {
    match m {
        WriteMethod::FeatureReport(id) => "feature 0x"@ + spec_hex(id as nat, 2, true),
        WriteMethod::OutputReport(id) => "output 0x"@ + spec_hex(id as nat, 2, true),
    }
}

impl WriteMethod {
    /// The report id that opens the packet.
    pub fn report_id(self) -> (id: u8)
        ensures
            id == spec_report_id(self),
    {
        match self {
            WriteMethod::FeatureReport(id) | WriteMethod::OutputReport(id) => id,
        }
    }

    /// The label of the method.
    pub fn label(self) -> (s: String)
        ensures
            s@ == spec_method_label(self),
    {
        let mut s = match self {
            WriteMethod::FeatureReport(_) => String::from_str("feature 0x"),
            WriteMethod::OutputReport(_) => String::from_str("output 0x"),
        };
        push_hex(&mut s, self.report_id() as u64, 2, true);
        s
    }
}

/// The write methods tried on a candidate, in order.
pub open spec fn spec_safe_methods() -> Seq<WriteMethod> {
    seq![
        WriteMethod::FeatureReport(0xCC),
        WriteMethod::FeatureReport(0x07),
        WriteMethod::FeatureReport(0x00),
        WriteMethod::OutputReport(0x01),
        WriteMethod::OutputReport(0x00),
        WriteMethod::OutputReport(0xCC),
    ]
}

/// The write methods tried on a candidate, in order.
pub fn safe_methods() -> (m: [WriteMethod; 6])
    ensures
        m@ == spec_safe_methods(),
{
    let m: [WriteMethod; 6] = [
        WriteMethod::FeatureReport(0xCC),
        WriteMethod::FeatureReport(0x07),
        WriteMethod::FeatureReport(0x00),
        WriteMethod::OutputReport(0x01),
        WriteMethod::OutputReport(0x00),
        WriteMethod::OutputReport(0xCC),
    ];
    assert(m@ =~= spec_safe_methods());
    m
}

/// Product ids of the legacy lighting controllers.
pub open spec fn spec_legacy_pids() -> Seq<u16> {
    seq![0xc993u16, 0xc996u16, 0xc995u16, 0xc994u16, 0xc985u16, 0xc981u16, 0xc693u16]
}

/// Product ids of the legacy lighting controllers.
pub fn legacy_pids() -> (p: [u16; 7])
    ensures
        p@ == spec_legacy_pids(),
{
    let p: [u16; 7] = [0xc993, 0xc996, 0xc995, 0xc994, 0xc985, 0xc981, 0xc693];
    assert(p@ =~= spec_legacy_pids());
    p
}

/// Whether an interface may be a four-zone Legion/LOQ controller: an ITE
/// vendor id and a legacy product id.
pub fn is_lenovo_candidate(vendor_id: u16, product_id: u16) -> (r: bool)
    ensures
        r == (vendor_id == 0x048d && spec_legacy_pids().contains(product_id)),
{
    if vendor_id != 0x048d {
        return false;
    }
    let pids = legacy_pids();
    let mut i: usize = 0;
    while i < 7
        invariant
            i <= 7,
            vendor_id == 0x048d,
            pids@ == spec_legacy_pids(),
            forall|j: int| 0 <= j < i ==> pids@[j] != product_id,
        decreases 7 - i,
    {
        if pids[i] == product_id {
            assert(spec_legacy_pids()[i as int] == product_id);
            assert(spec_legacy_pids().contains(product_id));
            return true;
        }
        i = i + 1;
    }
    false
}

/// Byte `i` of a legacy packet.
pub open spec fn packet_byte(report_id: u8, mode: u8, speed: u8, brightness: u8, zones: Seq<RgbColor>, i: int) -> u8 {
    if i == 0 {
        report_id
    } else if i == 1 {
        0x16
    } else if i == 2 {
        mode
    } else if i == 3 {
        speed
    } else if i == 4 {
        brightness
    } else if 5 <= i < 17 {
        let z = zones[(i - 5) / 3];
        if (i - 5) % 3 == 0 { z.r } else if (i - 5) % 3 == 1 { z.g } else { z.b }
    } else {
        0
    }
}

/// A 33-byte legacy packet: report id, 0x16, mode, speed, brightness, then
/// the four zone colours.
pub open spec fn spec_legacy_packet(method: WriteMethod, mode: u8, speed: u8, brightness: u8, zones: Seq<RgbColor>) -> Seq<u8> {
    Seq::new(33, |i: int| packet_byte(spec_report_id(method), mode, speed, brightness, zones, i))
}

/// The legacy packet that sets the four physical zones.
pub fn legacy_packet(method: WriteMethod, mode: u8, speed: u8, brightness: u8, zones: &[RgbColor; 4]) -> (buf: [u8; 33])
    ensures
        buf@ == spec_legacy_packet(method, mode, speed, brightness, zones@),
{
    let mut buf: [u8; 33] = [0u8; 33];
    buf[0] = method.report_id();
    buf[1] = 0x16;
    buf[2] = mode;
    buf[3] = speed;
    buf[4] = brightness;
    let mut index: usize = 0;
    while index < 4
        invariant
            index <= 4,
            forall|j: int| 0 <= j < 5 + 3 * index ==> buf@[j] == packet_byte(spec_report_id(method), mode, speed, brightness, zones@, j),
            forall|j: int| 5 + 3 * index <= j < 33 ==> buf@[j] == 0,
        decreases 4 - index,
    {
        let base = 5 + index * 3;
        let color = zones[index];
        buf[base] = color.r;
        buf[base + 1] = color.g;
        buf[base + 2] = color.b;
        index = index + 1;
    }
    assert(buf@ =~= spec_legacy_packet(method, mode, speed, brightness, zones@));
    buf
}

/// The packet of the brute-force scan: all four zones white.
pub fn scan_packet(method: WriteMethod, mode: u8, speed: u8, brightness: u8) -> (buf: [u8; 33])
    ensures
        buf@ == spec_legacy_packet(method, mode, speed, brightness, seq![RgbColor { r: 255, g: 255, b: 255 }; 4]),
{
    let w = RgbColor::white();
    let zones: [RgbColor; 4] = [w, w, w, w];
    assert(zones@ =~= seq![RgbColor { r: 255, g: 255, b: 255 }; 4]);
    legacy_packet(method, mode, speed, brightness, &zones)
}

/// The modes swept by the brute-force scan.
pub fn scan_modes() -> (m: [u8; 4])
    ensures
        m@ == seq![0x01u8, 0x03u8, 0x04u8, 0x06u8],
{
    let m: [u8; 4] = [0x01, 0x03, 0x04, 0x06];
    assert(m@ =~= seq![0x01u8, 0x03u8, 0x04u8, 0x06u8]);
    m
}

/// The logical frame with each physical zone's six logical zones set to
/// that zone's colour.
pub open spec fn spec_spread(zones: Seq<RgbColor>) -> Seq<RgbColor> {
    Seq::new(24, |i: int| zones[i / 6])
}

/// Gives each physical zone's six logical zones that zone's colour.
pub fn set_physical_zones(frame: &mut [RgbColor; 24], zones: [RgbColor; 4])
    ensures
        final(frame)@ == spec_spread(zones@),
{
    let mut physical_index: usize = 0;
    while physical_index < 4
        invariant
            physical_index <= 4,
            forall|j: int| 0 <= j < 6 * physical_index ==> #[trigger] frame@[j] == zones@[j / 6],
        decreases 4 - physical_index,
    {
        let start = physical_index * 6;
        let mut logical_index = start;
        while logical_index < start + 6
            invariant
                physical_index < 4,
                start == physical_index * 6,
                start <= logical_index <= start + 6,
                forall|j: int| 0 <= j < logical_index ==> #[trigger] frame@[j] == zones@[j / 6],
            decreases start + 6 - logical_index,
        {
            frame[logical_index] = zones[physical_index];
            logical_index = logical_index + 1;
        }
        physical_index = physical_index + 1;
    }
    assert(final(frame)@ =~= spec_spread(zones@));
}

/// Gives every logical zone one colour.
pub fn fill(frame: &mut [RgbColor; 24], color: RgbColor)
    ensures
        final(frame)@ == Seq::new(24, |i: int| color),
{
    *frame = [color; 24];
    assert(final(frame)@ =~= Seq::new(24, |i: int| color));
}

/// The sum of one channel over logical zones `start..start + count`.
pub open spec fn channel_sum(frame: Seq<RgbColor>, start: int, count: nat, channel: int) -> nat
    decreases count,
{
    if count == 0 {
        0
    } else {
        let c = frame[start + count - 1];
        let v: u8 = if channel == 0 { c.r } else if channel == 1 { c.g } else { c.b };
        channel_sum(frame, start, (count - 1) as nat, channel) + v as nat
    }
}

/// The colour of physical zone `zone`: the rounded-down average of its six
/// logical zones, channel by channel.
pub open spec fn spec_zone_average(frame: Seq<RgbColor>, zone: int) -> RgbColor {
    RgbColor {
        r: (channel_sum(frame, zone * 6, 6, 0) / 6) as u8,
        g: (channel_sum(frame, zone * 6, 6, 1) / 6) as u8,
        b: (channel_sum(frame, zone * 6, 6, 2) / 6) as u8,
    }
}

proof fn lemma_channel_sum_bound(frame: Seq<RgbColor>, start: int, count: nat, channel: int)
    ensures
        channel_sum(frame, start, count, channel) <= 255 * count,
    decreases count,
{
    if count > 0 {
        lemma_channel_sum_bound(frame, start, (count - 1) as nat, channel);
    }
}

/// Folds the 24 logical zones (already brought to the output brightness)
/// onto the 4 physical zones by averaging each group of six.
pub fn average_to_four(scaled: &[RgbColor; 24]) -> (zones: [RgbColor; 4])
    ensures
        forall|z: int| 0 <= z < 4 ==> #[trigger] zones@[z] == spec_zone_average(scaled@, z),
{
    let mut zones: [RgbColor; 4] = [RgbColor::black(); 4];
    let mut zone: usize = 0;
    while zone < 4
        invariant
            zone <= 4,
            forall|z: int| 0 <= z < zone ==> #[trigger] zones@[z] == spec_zone_average(scaled@, z),
        decreases 4 - zone,
    {
        let start = zone * 6;
        let mut r: u32 = 0;
        let mut g: u32 = 0;
        let mut b: u32 = 0;
        let mut k: usize = 0;
        while k < 6
            invariant
                zone < 4,
                start == zone * 6,
                k <= 6,
                r == channel_sum(scaled@, start as int, k as nat, 0),
                g == channel_sum(scaled@, start as int, k as nat, 1),
                b == channel_sum(scaled@, start as int, k as nat, 2),
            decreases 6 - k,
        {
            proof {
                lemma_channel_sum_bound(scaled@, start as int, k as nat, 0);
                lemma_channel_sum_bound(scaled@, start as int, k as nat, 1);
                lemma_channel_sum_bound(scaled@, start as int, k as nat, 2);
            }
            let c = scaled[start + k];
            r = r + c.r as u32;
            g = g + c.g as u32;
            b = b + c.b as u32;
            k = k + 1;
        }
        proof {
            lemma_channel_sum_bound(scaled@, start as int, 6, 0);
            lemma_channel_sum_bound(scaled@, start as int, 6, 1);
            lemma_channel_sum_bound(scaled@, start as int, 6, 2);
        }
        zones[zone] = RgbColor::new((r / 6) as u8, (g / 6) as u8, (b / 6) as u8);
        zone = zone + 1;
    }
    zones
}

/// Averaging a frame in which every physical zone's six logical zones share
/// one colour gives back those colours: folding undoes spreading.
pub proof fn lemma_average_undoes_spread(zones: Seq<RgbColor>, z: int)
    requires
        zones.len() == 4,
        0 <= z < 4,
    ensures
        spec_zone_average(spec_spread(zones), z) == zones[z],
{
    let f = spec_spread(zones);
    let c = zones[z];
    assert forall|ch: int, k: nat| k <= 6 implies #[trigger] channel_sum(f, z * 6, k, ch)
        == k * (if ch == 0 { c.r } else if ch == 1 { c.g } else { c.b }) as nat by {
        lemma_channel_sum_constant(f, z, k, ch, c);
    }
    assert(channel_sum(f, z * 6, 6, 0) == 6 * c.r as nat);
    assert(channel_sum(f, z * 6, 6, 1) == 6 * c.g as nat);
    assert(channel_sum(f, z * 6, 6, 2) == 6 * c.b as nat);
}

proof fn lemma_channel_sum_constant(f: Seq<RgbColor>, z: int, k: nat, ch: int, c: RgbColor)
    requires
        f.len() == 24,
        0 <= z < 4,
        k <= 6,
        forall|i: int| z * 6 <= i < z * 6 + 6 ==> f[i] == c,
    ensures
        channel_sum(f, z * 6, k, ch) == k * (if ch == 0 { c.r } else if ch == 1 { c.g } else { c.b }) as nat,
    decreases k,
{
    if k > 0 {
        lemma_channel_sum_constant(f, z, (k - 1) as nat, ch, c);
        assert(f[z * 6 + k - 1] == c);
        let v: nat = (if ch == 0 { c.r } else if ch == 1 { c.g } else { c.b }) as nat;
        assert((k - 1) as nat * v + v == k * v) by (nonlinear_arith)
            requires
                k > 0;
        assert(channel_sum(f, z * 6, k, ch) == channel_sum(f, z * 6, (k - 1) as nat, ch) + v);
    } else {
        let v: nat = (if ch == 0 { c.r } else if ch == 1 { c.g } else { c.b }) as nat;
        assert(k * v == 0) by (nonlinear_arith)
            requires
                k == 0;
    }
}


/// The keys the zone map singles out; every other key is `Other`.
#[derive(Debug, Clone, Copy, PartialEq, Eq, Structural)]
pub enum KeyName {
    Escape, BackQuote, Tab, CapsLock, ShiftLeft, ControlLeft, Num1, KeyQ, KeyA, KeyZ, MetaLeft,
    Num2, Num3, Num4, KeyW, KeyE, KeyR, KeyS, KeyD, KeyF, KeyX, KeyC, KeyV, Alt, Space,
    Num5, Num6, Num7, KeyT, KeyY, KeyU, KeyG, KeyH, KeyJ, KeyB, KeyN, KeyM, Comma, AltGr,
    Other,
}

/// The physical zone under a key: the left block is zone 0, the next
/// columns zone 1, the middle columns zone 2, everything else zone 3.
pub open spec fn spec_key_zone(key: KeyName) -> usize {
    match key {
        KeyName::Escape | KeyName::BackQuote | KeyName::Tab | KeyName::CapsLock | KeyName::ShiftLeft
        | KeyName::ControlLeft | KeyName::Num1 | KeyName::KeyQ | KeyName::KeyA | KeyName::KeyZ
        | KeyName::MetaLeft => 0,
        KeyName::Num2 | KeyName::Num3 | KeyName::Num4 | KeyName::KeyW | KeyName::KeyE | KeyName::KeyR
        | KeyName::KeyS | KeyName::KeyD | KeyName::KeyF | KeyName::KeyX | KeyName::KeyC | KeyName::KeyV
        | KeyName::Alt | KeyName::Space => 1,
        KeyName::Num5 | KeyName::Num6 | KeyName::Num7 | KeyName::KeyT | KeyName::KeyY | KeyName::KeyU
        | KeyName::KeyG | KeyName::KeyH | KeyName::KeyJ | KeyName::KeyB | KeyName::KeyN | KeyName::KeyM
        | KeyName::Comma | KeyName::AltGr => 2,
        KeyName::Other => 3,
    }
}

/// The physical zone under a key.
pub fn map_key_to_zone(key: KeyName) -> (zone: usize)
    ensures
        zone == spec_key_zone(key),
        zone < NUM_PHYSICAL_ZONES,
{
    match key {
        KeyName::Escape | KeyName::BackQuote | KeyName::Tab | KeyName::CapsLock | KeyName::ShiftLeft
        | KeyName::ControlLeft | KeyName::Num1 | KeyName::KeyQ | KeyName::KeyA | KeyName::KeyZ
        | KeyName::MetaLeft => 0,
        KeyName::Num2 | KeyName::Num3 | KeyName::Num4 | KeyName::KeyW | KeyName::KeyE | KeyName::KeyR
        | KeyName::KeyS | KeyName::KeyD | KeyName::KeyF | KeyName::KeyX | KeyName::KeyC | KeyName::KeyV
        | KeyName::Alt | KeyName::Space => 1,
        KeyName::Num5 | KeyName::Num6 | KeyName::Num7 | KeyName::KeyT | KeyName::KeyY | KeyName::KeyU
        | KeyName::KeyG | KeyName::KeyH | KeyName::KeyJ | KeyName::KeyB | KeyName::KeyN | KeyName::KeyM
        | KeyName::Comma | KeyName::AltGr => 2,
        KeyName::Other => 3,
    }
}

/// The zones of the keys, left to right: Escape, `, Tab, Caps Lock, left
/// Shift, left Control, 1, Q, A, Z and the left Meta key are in zone 0;
/// 2, 3, 4, W, E, R, S, D, F, X, C, V, Alt and Space in zone 1; 5, 6, 7, T,
/// Y, U, G, H, J, B, N, M, comma and AltGr in zone 2; every other key in
/// zone 3.
pub proof fn lemma_key_zones(key: KeyName)
    ensures
        key == KeyName::Escape || key == KeyName::BackQuote || key == KeyName::Tab || key == KeyName::CapsLock || key == KeyName::ShiftLeft || key == KeyName::ControlLeft || key == KeyName::Num1 || key == KeyName::KeyQ || key == KeyName::KeyA || key == KeyName::KeyZ || key == KeyName::MetaLeft ==> spec_key_zone(key) == 0,
        key == KeyName::Num2 || key == KeyName::Num3 || key == KeyName::Num4 || key == KeyName::KeyW || key == KeyName::KeyE || key == KeyName::KeyR || key == KeyName::KeyS || key == KeyName::KeyD || key == KeyName::KeyF || key == KeyName::KeyX || key == KeyName::KeyC || key == KeyName::KeyV || key == KeyName::Alt || key == KeyName::Space ==> spec_key_zone(key) == 1,
        key == KeyName::Num5 || key == KeyName::Num6 || key == KeyName::Num7 || key == KeyName::KeyT || key == KeyName::KeyY || key == KeyName::KeyU || key == KeyName::KeyG || key == KeyName::KeyH || key == KeyName::KeyJ || key == KeyName::KeyB || key == KeyName::KeyN || key == KeyName::KeyM || key == KeyName::Comma || key == KeyName::AltGr ==> spec_key_zone(key) == 2,
        key == KeyName::Other ==> spec_key_zone(key) == 3,
{
}

/// How many key events are kept.
pub const MAX_KEY_EVENTS: usize = 24;

/// The kept events after a new one: the newest 24 events, the new one
/// last.
pub open spec fn spec_push_key_event(events: Seq<usize>, zone: usize) -> Seq<usize> {
    let all = events.push(zone);
    if all.len() > 24 {
        all.subrange(all.len() - 24, all.len() as int)
    } else {
        all
    }
}

/// Records the zone of a key press, dropping the oldest events beyond 24.
pub fn push_key_event(events: &mut Vec<usize>, zone: usize)
    ensures
        final(events)@ == spec_push_key_event(old(events)@, zone),
{
    events.push(zone);
    let len = events.len();
    if len > MAX_KEY_EVENTS {
        let excess = len - MAX_KEY_EVENTS;
        let mut kept: Vec<usize> = Vec::new();
        let mut i: usize = excess;
        while i < len
            invariant
                len == events@.len(),
                excess <= i <= len,
                kept@ == events@.subrange(excess as int, i as int),
            decreases len - i,
        {
            kept.push(events[i]);
            i = i + 1;
            assert(kept@ =~= events@.subrange(excess as int, i as int));
        }
        *events = kept;
    }
}

/// The event buffer never holds more than 24 events, and the newest event
/// is always the one just recorded.
pub proof fn lemma_key_events_bounded(events: Seq<usize>, zone: usize)
    ensures
        spec_push_key_event(events, zone).len() <= MAX_KEY_EVENTS,
        spec_push_key_event(events, zone).last() == zone,
        events.len() < MAX_KEY_EVENTS ==> spec_push_key_event(events, zone) == events.push(zone),
{
}

/// The label of a candidate interface: "PID 0x", its product id in four
/// lower-case hexadecimal digits, " IF ", its interface number, " USAGE 0x"
/// and its usage page in four lower-case hexadecimal digits.
pub open spec fn spec_candidate_label(product_id: u16, interface_number: i32, usage_page: u16) -> Seq<char> {
    "PID 0x"@ + spec_hex(product_id as nat, 4, false) + " IF "@ + spec_signed_decimal(interface_number as int)
        + " USAGE 0x"@ + spec_hex(usage_page as nat, 4, false)
}

/// The label of a candidate interface.
pub fn candidate_label(product_id: u16, interface_number: i32, usage_page: u16) -> (s: String)
    ensures
        s@ == spec_candidate_label(product_id, interface_number, usage_page),
{
    let mut s = String::from_str("PID 0x");
    push_hex(&mut s, product_id as u64, 4, false);
    s.append(" IF ");
    push_signed_decimal(&mut s, interface_number);
    s.append(" USAGE 0x");
    push_hex(&mut s, usage_page as u64, 4, false);
    s
}

/// The label of an output: the candidate's label, " RID 0x" and the write
/// method's report id in two upper-case hexadecimal digits.
pub fn output_label(candidate: &str, method: WriteMethod) -> (s: String)
    ensures
        s@ == candidate@ + " RID 0x"@ + spec_hex(spec_report_id(method) as nat, 2, true),
{
    let mut s = String::from_str(candidate);
    s.append(" RID 0x");
    push_hex(&mut s, method.report_id() as u64, 2, true);
    s
}

/// The labels of the connected outputs, joined by " | ".
pub open spec fn spec_join(labels: Seq<Seq<char>>) -> Seq<char>
    decreases labels.len(),
{
    if labels.len() == 0 {
        Seq::empty()
    } else if labels.len() == 1 {
        labels[0]
    } else {
        spec_join(labels.drop_last()) + " | "@ + labels.last()
    }
}

/// The labels of the connected outputs, joined by " | ".
pub fn join_labels(labels: &Vec<String>) -> (s: String)
    ensures
        s@ == spec_join(labels@.map_values(|l: String| l@)),
{
    let ghost views = labels@.map_values(|l: String| l@);
    let mut s = String::new();
    let mut i: usize = 0;
    while i < labels.len()
        invariant
            i <= labels@.len(),
            views == labels@.map_values(|l: String| l@),
            s@ == spec_join(views.subrange(0, i as int)),
        decreases labels@.len() - i,
    {
        if i != 0 {
            s.append(" | ");
        }
        s.append(labels[i].as_str());
        assert(views.subrange(0, i + 1).drop_last() =~= views.subrange(0, i as int));
        assert(s@ =~= spec_join(views.subrange(0, i + 1)));
        i = i + 1;
    }
    assert(views.subrange(0, labels@.len() as int) =~= views);
    s
}

/// The interface text after looking for outputs: the labels of the outputs
/// found, joined by " | ", or a refusal when none was found.
pub fn connect_result(labels: &Vec<String>) -> (r: Result<String, String>)
    ensures
        labels@.len() == 0 ==> (r matches Err(m) && m@ == "No compatible 4-zone Legion/LOQ interface found"@),
        labels@.len() > 0 ==> (r matches Ok(info) && info@ == spec_join(labels@.map_values(|l: String| l@))),
{
    if labels.len() == 0 {
        Err(String::from_str("No compatible 4-zone Legion/LOQ interface found"))
    } else {
        Ok(join_labels(labels))
    }
}

/// The outcome of sending a frame: refused when there is no output, or when
/// none of the outputs accepted it.
pub fn flush_result(outputs: usize, accepted: usize) -> (r: Result<(), String>)
    ensures
        outputs == 0 ==> (r matches Err(m) && m@ == "Keyboard not connected"@),
        outputs > 0 && accepted == 0 ==> (r matches Err(m) && m@ == "No connected lighting endpoints accepted the frame"@),
        outputs > 0 && accepted > 0 ==> r is Ok,
{
    if outputs == 0 {
        Err(String::from_str("Keyboard not connected"))
    } else if accepted == 0 {
        Err(String::from_str("No connected lighting endpoints accepted the frame"))
    } else {
        Ok(())
    }
}

/// What is shown as the interface: the joined labels, or "No device".
pub fn interface_label(interface_info: &String) -> (s: String)
    ensures
        s@ == (if interface_info@.len() == 0 { "No device"@ } else { interface_info@ }),
{
    if interface_info.as_str().unicode_len() == 0 {
        String::from_str("No device")
    } else {
        interface_info.clone()
    }
}

/// The message of a hardware test: "Hardware test sent: #" and the colour
/// in lower-case hexadecimal, two digits per channel.
pub fn hardware_test_message(color: RgbColor) -> (s: String)
    ensures
        s@ == "Hardware test sent: #"@ + spec_hex(color.r as nat, 2, false) + spec_hex(color.g as nat, 2, false)
            + spec_hex(color.b as nat, 2, false),
{
    let mut s = String::from_str("Hardware test sent: #");
    push_hex(&mut s, color.r as u64, 2, false);
    push_hex(&mut s, color.g as u64, 2, false);
    push_hex(&mut s, color.b as u64, 2, false);
    s
}

/// The presets of the stealth controller.
#[derive(Debug, Clone, Copy, PartialEq, Eq, Structural)]
pub enum PresetKind {
    StaticColor,
    Aurora,
    Rpm,
    ThermalPro,
    Breathing,
    Pulse,
    Ripple,
    Chain,
    Meteor,
    RainbowCycle,
    RainbowWave,
    StillGradient,
    FireFlow,
    Ocean,
    Sparkle,
}

/// The preset named by a lower-case name.
pub open spec fn spec_preset_of_lower(name: Seq<char>) -> Option<PresetKind> {
    if name == "staticcolor"@ { Some(PresetKind::StaticColor) }
    else if name == "aurora"@ { Some(PresetKind::Aurora) }
    else if name == "rpm"@ { Some(PresetKind::Rpm) }
    else if name == "thermalpro"@ { Some(PresetKind::ThermalPro) }
    else if name == "breathing"@ { Some(PresetKind::Breathing) }
    else if name == "pulse"@ { Some(PresetKind::Pulse) }
    else if name == "ripple"@ { Some(PresetKind::Ripple) }
    else if name == "chain"@ { Some(PresetKind::Chain) }
    else if name == "meteor"@ { Some(PresetKind::Meteor) }
    else if name == "rainbowcycle"@ { Some(PresetKind::RainbowCycle) }
    else if name == "rainbowwave"@ { Some(PresetKind::RainbowWave) }
    else if name == "stillgradient"@ { Some(PresetKind::StillGradient) }
    else if name == "fireflow"@ { Some(PresetKind::FireFlow) }
    else if name == "ocean"@ { Some(PresetKind::Ocean) }
    else if name == "sparkle"@ { Some(PresetKind::Sparkle) }
    else { None }
}

/// The preset named by a lower-case name.
pub fn preset_of_lower(name: &str) -> (r: Option<PresetKind>)
    ensures
        r == spec_preset_of_lower(name@),
{
    if str_equals(name, "staticcolor") { Some(PresetKind::StaticColor) }
    else if str_equals(name, "aurora") { Some(PresetKind::Aurora) }
    else if str_equals(name, "rpm") { Some(PresetKind::Rpm) }
    else if str_equals(name, "thermalpro") { Some(PresetKind::ThermalPro) }
    else if str_equals(name, "breathing") { Some(PresetKind::Breathing) }
    else if str_equals(name, "pulse") { Some(PresetKind::Pulse) }
    else if str_equals(name, "ripple") { Some(PresetKind::Ripple) }
    else if str_equals(name, "chain") { Some(PresetKind::Chain) }
    else if str_equals(name, "meteor") { Some(PresetKind::Meteor) }
    else if str_equals(name, "rainbowcycle") { Some(PresetKind::RainbowCycle) }
    else if str_equals(name, "rainbowwave") { Some(PresetKind::RainbowWave) }
    else if str_equals(name, "stillgradient") { Some(PresetKind::StillGradient) }
    else if str_equals(name, "fireflow") { Some(PresetKind::FireFlow) }
    else if str_equals(name, "ocean") { Some(PresetKind::Ocean) }
    else if str_equals(name, "sparkle") { Some(PresetKind::Sparkle) }
    else { None }
}

/// Each preset is selected by its own name, written in lower case without
/// spaces ("staticcolor", "aurora", "rpm", "thermalpro", "breathing",
/// "pulse", "ripple", "chain", "meteor", "rainbowcycle", "rainbowwave",
/// "stillgradient", "fireflow", "ocean", "sparkle"), and two names that
/// select the same preset are the same name.
pub proof fn lemma_preset_names(n1: Seq<char>, n2: Seq<char>)
    ensures
        spec_preset_of_lower("staticcolor"@) == Some(PresetKind::StaticColor),
        spec_preset_of_lower("aurora"@) == Some(PresetKind::Aurora),
        spec_preset_of_lower("rpm"@) == Some(PresetKind::Rpm),
        spec_preset_of_lower("thermalpro"@) == Some(PresetKind::ThermalPro),
        spec_preset_of_lower("breathing"@) == Some(PresetKind::Breathing),
        spec_preset_of_lower("pulse"@) == Some(PresetKind::Pulse),
        spec_preset_of_lower("ripple"@) == Some(PresetKind::Ripple),
        spec_preset_of_lower("chain"@) == Some(PresetKind::Chain),
        spec_preset_of_lower("meteor"@) == Some(PresetKind::Meteor),
        spec_preset_of_lower("rainbowcycle"@) == Some(PresetKind::RainbowCycle),
        spec_preset_of_lower("rainbowwave"@) == Some(PresetKind::RainbowWave),
        spec_preset_of_lower("stillgradient"@) == Some(PresetKind::StillGradient),
        spec_preset_of_lower("fireflow"@) == Some(PresetKind::FireFlow),
        spec_preset_of_lower("ocean"@) == Some(PresetKind::Ocean),
        spec_preset_of_lower("sparkle"@) == Some(PresetKind::Sparkle),
        spec_preset_of_lower(n1) is Some && spec_preset_of_lower(n1) == spec_preset_of_lower(n2) ==> n1 == n2,
{
    reveal_strlit("staticcolor");
    assert("staticcolor"@.len() == 11 && "staticcolor"@[0] == 's');
    reveal_strlit("aurora");
    assert("aurora"@.len() == 6 && "aurora"@[0] == 'a');
    reveal_strlit("rpm");
    assert("rpm"@.len() == 3 && "rpm"@[0] == 'r');
    reveal_strlit("thermalpro");
    assert("thermalpro"@.len() == 10 && "thermalpro"@[0] == 't');
    reveal_strlit("breathing");
    assert("breathing"@.len() == 9 && "breathing"@[0] == 'b');
    reveal_strlit("pulse");
    assert("pulse"@.len() == 5 && "pulse"@[0] == 'p');
    reveal_strlit("ripple");
    assert("ripple"@.len() == 6 && "ripple"@[0] == 'r');
    reveal_strlit("chain");
    assert("chain"@.len() == 5 && "chain"@[0] == 'c');
    reveal_strlit("meteor");
    assert("meteor"@.len() == 6 && "meteor"@[0] == 'm');
    reveal_strlit("rainbowcycle");
    assert("rainbowcycle"@.len() == 12 && "rainbowcycle"@[0] == 'r');
    reveal_strlit("rainbowwave");
    assert("rainbowwave"@.len() == 11 && "rainbowwave"@[0] == 'r');
    reveal_strlit("stillgradient");
    assert("stillgradient"@.len() == 13 && "stillgradient"@[0] == 's');
    reveal_strlit("fireflow");
    assert("fireflow"@.len() == 8 && "fireflow"@[0] == 'f');
    reveal_strlit("ocean");
    assert("ocean"@.len() == 5 && "ocean"@[0] == 'o');
    reveal_strlit("sparkle");
    assert("sparkle"@.len() == 7 && "sparkle"@[0] == 's');
}

/// The lower-case equivalent of a text, as `str::to_lowercase` gives it.
pub uninterp spec fn str_lowercase(s: Seq<char>) -> Seq<char>;

/// `str::to_lowercase`: the lower-case equivalent of a string slice. Its
/// result is named `str_lowercase`; nothing more is claimed of it.
#[verifier::external_body]
fn to_lowercase(s: &str) -> (r: String)
    ensures
        r@ == str_lowercase(s@),
{
    s.to_lowercase()
}

/// The preset a name selects, ignoring case; an unknown name is refused
/// with the message "Unknown preset: " followed by the name.
pub fn preset_kind(preset_name: &str) -> (r: Result<PresetKind, String>)
    ensures
        match spec_preset_of_lower(str_lowercase(preset_name@)) {
            Some(k) => r == Ok::<PresetKind, String>(k),
            None => r matches Err(msg) && msg@ == "Unknown preset: "@ + preset_name@,
        },
{
    let lower = to_lowercase(preset_name);
    match preset_of_lower(lower.as_str()) {
        Some(k) => Ok(k),
        None => {
            let mut msg = String::from_str("Unknown preset: ");
            msg.append(preset_name);
            Err(msg)
        },
    }
}

/// The message after a preset was loaded.
pub fn loaded_preset_message(preset_name: &str) -> (s: String)
    ensures
        s@ == "Loaded preset: "@ + preset_name@,
{
    let mut s = String::from_str("Loaded preset: ");
    s.append(preset_name);
    s
}


/// The zone colours of twelve colour bytes.
pub open spec fn spec_zones_of(rgb: Seq<u8>) -> Seq<RgbColor> {
    Seq::new(4, |z: int| RgbColor { r: rgb[3 * z], g: rgb[3 * z + 1], b: rgb[3 * z + 2] })
}

/// The stealth controller's packet and the driver's legacy report agree: a
/// feature-report packet with id 0xcc in mode 0x01 is the driver's report
/// for a static state with the same speed, brightness and colours.
pub proof fn lemma_packet_matches_driver_report(state: LightingState)
    requires
        state.effect_type == BaseEffects::Static,
    ensures
        spec_legacy_packet(WriteMethod::FeatureReport(0xcc), 0x01, state.speed, state.brightness, spec_zones_of(state.rgb_values@))
            == spec_legacy_payload(state),
{
    let zones = spec_zones_of(state.rgb_values@);
    let a = spec_legacy_packet(WriteMethod::FeatureReport(0xcc), 0x01, state.speed, state.brightness, zones);
    let b = spec_legacy_payload(state);
    assert forall|i: int| 5 <= i < 17 implies a[i] == b[i] by {
        let z = (i - 5) / 3;
        assert(3 * z + (i - 5) % 3 == i - 5);
    }
    assert(a =~= b);
}


/// The kind of a preset parameter: a number, or a colour with its default.
#[derive(Debug, Clone, Copy, PartialEq, Eq, Structural)]
pub enum ParameterType {
    Float,
    Color { r: u8, g: u8, b: u8 },
}

/// The buffer keeps the newest events in the order they came: after a new
/// event it holds the last `min(n + 1, 24)` of the old events followed by
/// the new one.
pub proof fn lemma_key_events_keep_newest(events: Seq<usize>, zone: usize)
    ensures
        spec_push_key_event(events, zone).len() == (if events.len() + 1 <= 24 { events.len() + 1 } else { 24 }),
        forall|i: int| 0 <= i < spec_push_key_event(events, zone).len() - 1 ==>
            #[trigger] spec_push_key_event(events, zone)[i] == events[events.len() + 1 - spec_push_key_event(events, zone).len() + i],
        spec_push_key_event(events, zone)[spec_push_key_event(events, zone).len() - 1] == zone,
{
}

/// The legacy controllers the stealth scan accepts: ITE product ids 0xc993,
/// 0xc996, 0xc995, 0xc994, 0xc985, 0xc981 and 0xc693, and no other.
pub proof fn lemma_legacy_pids(product_id: u16)
    ensures
        spec_legacy_pids().contains(product_id) <==> (product_id == 0xc993 || product_id == 0xc996
            || product_id == 0xc995 || product_id == 0xc994 || product_id == 0xc985 || product_id == 0xc981
            || product_id == 0xc693),
{
    let p = spec_legacy_pids();
    if product_id == 0xc993 { assert(p[0] == product_id); }
    if product_id == 0xc996 { assert(p[1] == product_id); }
    if product_id == 0xc995 { assert(p[2] == product_id); }
    if product_id == 0xc994 { assert(p[3] == product_id); }
    if product_id == 0xc985 { assert(p[4] == product_id); }
    if product_id == 0xc981 { assert(p[5] == product_id); }
    if product_id == 0xc693 { assert(p[6] == product_id); }
}

/// The write methods are tried in this order: feature reports with ids
/// 0xcc, 0x07 and 0x00, then output reports with ids 0x01, 0x00 and 0xcc.
pub proof fn lemma_safe_methods_order()
    ensures
        spec_safe_methods().len() == 6,
        spec_safe_methods()[0] == WriteMethod::FeatureReport(0xcc),
        spec_safe_methods()[1] == WriteMethod::FeatureReport(0x07),
        spec_safe_methods()[2] == WriteMethod::FeatureReport(0x00),
        spec_safe_methods()[3] == WriteMethod::OutputReport(0x01),
        spec_safe_methods()[4] == WriteMethod::OutputReport(0x00),
        spec_safe_methods()[5] == WriteMethod::OutputReport(0xcc),
{
}

/// The stealth packet: report id, 0x16, mode, speed, brightness, then the
/// red, green and blue of zones 0 to 3, then zeros up to 33 bytes.
pub proof fn lemma_packet_layout(method: WriteMethod, mode: u8, speed: u8, brightness: u8, zones: Seq<RgbColor>, z: int)
    requires
        0 <= z < 4,
    ensures
        spec_legacy_packet(method, mode, speed, brightness, zones).len() == 33,
        spec_legacy_packet(method, mode, speed, brightness, zones)[0] == (match method {
            WriteMethod::FeatureReport(id) => id,
            WriteMethod::OutputReport(id) => id,
        }),
        spec_legacy_packet(method, mode, speed, brightness, zones)[1] == 0x16,
        spec_legacy_packet(method, mode, speed, brightness, zones)[2] == mode,
        spec_legacy_packet(method, mode, speed, brightness, zones)[3] == speed,
        spec_legacy_packet(method, mode, speed, brightness, zones)[4] == brightness,
        spec_legacy_packet(method, mode, speed, brightness, zones)[5 + 3 * z] == zones[z].r,
        spec_legacy_packet(method, mode, speed, brightness, zones)[6 + 3 * z] == zones[z].g,
        spec_legacy_packet(method, mode, speed, brightness, zones)[7 + 3 * z] == zones[z].b,
        forall|i: int| 17 <= i < 33 ==> spec_legacy_packet(method, mode, speed, brightness, zones)[i] == 0,
{
    assert((3 * z) / 3 == z && (3 * z) % 3 == 0);
    assert((3 * z + 1) / 3 == z && (3 * z + 1) % 3 == 1);
    assert((3 * z + 2) / 3 == z && (3 * z + 2) % 3 == 2);
}

} // verus!
