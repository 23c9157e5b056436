//! The whole-number parts of the software effects: the Morse beacon, the
//! lightning and glitch rounds (drawn with `rand`), the emergency strobes and
//! the focus lamp.
use vstd::prelude::*;
use rand::Rng;
use rand::rngs::ThreadRng;

verus! {

/// One element of a Morse transmission.
#[derive(Clone, Copy, Debug, PartialEq, Eq, Structural)]
pub enum Pulse {
    Dot,
    Dash,
    /// Silence between the pulses of a letter.
    Gap,
    /// Silence after a letter.
    LetterSpace,
}

/// The International Morse code of an upper-case letter; a space is a
/// letter space; anything else has no code.
pub open spec fn spec_morse_code(c: char) -> Seq<Pulse> {
    if c == 'A' { seq![Pulse::Dot, Pulse::Dash] }
    else if c == 'B' { seq![Pulse::Dash, Pulse::Dot, Pulse::Dot, Pulse::Dot] }
    else if c == 'C' { seq![Pulse::Dash, Pulse::Dot, Pulse::Dash, Pulse::Dot] }
    else if c == 'D' { seq![Pulse::Dash, Pulse::Dot, Pulse::Dot] }
    else if c == 'E' { seq![Pulse::Dot] }
    else if c == 'F' { seq![Pulse::Dot, Pulse::Dot, Pulse::Dash, Pulse::Dot] }
    else if c == 'G' { seq![Pulse::Dash, Pulse::Dash, Pulse::Dot] }
    else if c == 'H' { seq![Pulse::Dot, Pulse::Dot, Pulse::Dot, Pulse::Dot] }
    else if c == 'I' { seq![Pulse::Dot, Pulse::Dot] }
    else if c == 'J' { seq![Pulse::Dot, Pulse::Dash, Pulse::Dash, Pulse::Dash] }
    else if c == 'K' { seq![Pulse::Dash, Pulse::Dot, Pulse::Dash] }
    else if c == 'L' { seq![Pulse::Dot, Pulse::Dash, Pulse::Dot, Pulse::Dot] }
    else if c == 'M' { seq![Pulse::Dash, Pulse::Dash] }
    else if c == 'N' { seq![Pulse::Dash, Pulse::Dot] }
    else if c == 'O' { seq![Pulse::Dash, Pulse::Dash, Pulse::Dash] }
    else if c == 'P' { seq![Pulse::Dot, Pulse::Dash, Pulse::Dash, Pulse::Dot] }
    else if c == 'Q' { seq![Pulse::Dash, Pulse::Dash, Pulse::Dot, Pulse::Dash] }
    else if c == 'R' { seq![Pulse::Dot, Pulse::Dash, Pulse::Dot] }
    else if c == 'S' { seq![Pulse::Dot, Pulse::Dot, Pulse::Dot] }
    else if c == 'T' { seq![Pulse::Dash] }
    else if c == 'U' { seq![Pulse::Dot, Pulse::Dot, Pulse::Dash] }
    else if c == 'V' { seq![Pulse::Dot, Pulse::Dot, Pulse::Dot, Pulse::Dash] }
    else if c == 'W' { seq![Pulse::Dot, Pulse::Dash, Pulse::Dash] }
    else if c == 'X' { seq![Pulse::Dash, Pulse::Dot, Pulse::Dot, Pulse::Dash] }
    else if c == 'Y' { seq![Pulse::Dash, Pulse::Dot, Pulse::Dash, Pulse::Dash] }
    else if c == 'Z' { seq![Pulse::Dash, Pulse::Dash, Pulse::Dot, Pulse::Dot] }
    else if c == ' ' { seq![Pulse::LetterSpace] }
    else { Seq::empty() }
}

/// Each pulse of a code followed by a gap.
pub open spec fn spec_with_gaps(code: Seq<Pulse>) -> Seq<Pulse>
    decreases code.len(),
{
    if code.len() == 0 {
        Seq::empty()
    } else {
        spec_with_gaps(code.drop_last()).push(code.last()).push(Pulse::Gap)
    }
}

/// The transmission of one character: its code with gaps, then a letter space.
pub open spec fn spec_char_morse(c: char) -> Seq<Pulse> {
    spec_with_gaps(spec_morse_code(c)).push(Pulse::LetterSpace)
}

/// The transmission of a text that is already upper case.
pub open spec fn spec_morse(s: Seq<char>) -> Seq<Pulse>
    decreases s.len(),
{
    if s.len() == 0 {
        Seq::empty()
    } else {
        spec_morse(s.drop_last()) + spec_char_morse(s.last())
    }
}

/// The upper-case equivalent of a text, as `str::to_uppercase` gives it
/// (Unicode upper-casing, which may change the number of characters).
pub uninterp spec fn str_uppercase(s: Seq<char>) -> Seq<char>;

/// `str::to_uppercase`: the upper-case equivalent of a string slice. Its
/// result is named `str_uppercase`; nothing more is claimed of it.
#[verifier::external_body]
fn to_uppercase(s: &str) -> (r: String)
    ensures
        r@ == str_uppercase(s@),
{
    s.to_uppercase()
}

/// The Morse code of one character.
pub fn morse_code(c: char) -> (r: Vec<Pulse>)
    ensures
        r@ == spec_morse_code(c),
{
    let r = match c {
        'A' => vec![Pulse::Dot, Pulse::Dash],
        'B' => vec![Pulse::Dash, Pulse::Dot, Pulse::Dot, Pulse::Dot],
        'C' => vec![Pulse::Dash, Pulse::Dot, Pulse::Dash, Pulse::Dot],
        'D' => vec![Pulse::Dash, Pulse::Dot, Pulse::Dot],
        'E' => vec![Pulse::Dot],
        'F' => vec![Pulse::Dot, Pulse::Dot, Pulse::Dash, Pulse::Dot],
        'G' => vec![Pulse::Dash, Pulse::Dash, Pulse::Dot],
        'H' => vec![Pulse::Dot, Pulse::Dot, Pulse::Dot, Pulse::Dot],
        'I' => vec![Pulse::Dot, Pulse::Dot],
        'J' => vec![Pulse::Dot, Pulse::Dash, Pulse::Dash, Pulse::Dash],
        'K' => vec![Pulse::Dash, Pulse::Dot, Pulse::Dash],
        'L' => vec![Pulse::Dot, Pulse::Dash, Pulse::Dot, Pulse::Dot],
        'M' => vec![Pulse::Dash, Pulse::Dash],
        'N' => vec![Pulse::Dash, Pulse::Dot],
        'O' => vec![Pulse::Dash, Pulse::Dash, Pulse::Dash],
        'P' => vec![Pulse::Dot, Pulse::Dash, Pulse::Dash, Pulse::Dot],
        'Q' => vec![Pulse::Dash, Pulse::Dash, Pulse::Dot, Pulse::Dash],
        'R' => vec![Pulse::Dot, Pulse::Dash, Pulse::Dot],
        'S' => vec![Pulse::Dot, Pulse::Dot, Pulse::Dot],
        'T' => vec![Pulse::Dash],
        'U' => vec![Pulse::Dot, Pulse::Dot, Pulse::Dash],
        'V' => vec![Pulse::Dot, Pulse::Dot, Pulse::Dot, Pulse::Dash],
        'W' => vec![Pulse::Dot, Pulse::Dash, Pulse::Dash],
        'X' => vec![Pulse::Dash, Pulse::Dot, Pulse::Dot, Pulse::Dash],
        'Y' => vec![Pulse::Dash, Pulse::Dot, Pulse::Dash, Pulse::Dash],
        'Z' => vec![Pulse::Dash, Pulse::Dash, Pulse::Dot, Pulse::Dot],
        ' ' => vec![Pulse::LetterSpace],
        _ => Vec::new(),
    };
    assert(r@ =~= spec_morse_code(c));
    r
}

/// The transmission of a text that is already upper case.
pub fn morse_of_upper(upper: &str) -> (r: Vec<Pulse>)
    ensures
        r@ == spec_morse(upper@),
{
    let n = upper.unicode_len();
    let mut r: Vec<Pulse> = Vec::new();
    let mut i: usize = 0;
    while i < n
        invariant
            n == upper@.len(),
            i <= n,
            r@ == spec_morse(upper@.subrange(0, i as int)),
        decreases n - i,
    {
        let c = upper.get_char(i);
        let code = morse_code(c);
        let ghost before = r@;
        let mut k: usize = 0;
        while k < code.len()
            invariant
                k <= code@.len(),
                code@ == spec_morse_code(c),
                r@ == before + spec_with_gaps(code@.subrange(0, k as int)),
            decreases code@.len() - k,
        {
            r.push(code[k]);
            r.push(Pulse::Gap);
            assert(code@.subrange(0, k + 1).drop_last() =~= code@.subrange(0, k as int));
            assert(r@ =~= before + spec_with_gaps(code@.subrange(0, k + 1)));
            k = k + 1;
        }
        assert(code@.subrange(0, code@.len() as int) =~= code@);
        r.push(Pulse::LetterSpace);
        assert(upper@.subrange(0, i + 1).drop_last() =~= upper@.subrange(0, i as int));
        assert(upper@.subrange(0, i + 1).last() == c);
        assert(r@ =~= spec_morse(upper@.subrange(0, i + 1)));
        i = i + 1;
    }
    assert(upper@.subrange(0, n as int) =~= upper@);
    r
}

/// The Morse transmission of a text: upper-cased, each character's code
/// with a gap after every pulse and a letter space after the character.
pub fn string_to_morse(s: &str) -> (r: Vec<Pulse>)
    ensures
        r@ == spec_morse(str_uppercase(s@)),
{
    let upper = to_uppercase(s);
    morse_of_upper(upper.as_str())
}

/// Transmitting two texts one after the other is transmitting their
/// concatenation.
pub proof fn lemma_morse_concat(a: Seq<char>, b: Seq<char>)
    ensures
        spec_morse(a + b) == spec_morse(a) + spec_morse(b),
    decreases b.len(),
{
    if b.len() == 0 {
        assert(a + b =~= a);
        assert(spec_morse(b) =~= Seq::<Pulse>::empty());
        assert(spec_morse(a) + spec_morse(b) =~= spec_morse(a));
    } else {
        lemma_morse_concat(a, b.drop_last());
        assert((a + b).drop_last() =~= a + b.drop_last());
        assert((a + b).last() == b.last());
        assert(spec_morse(a + b) =~= spec_morse(a) + spec_morse(b));
    }
}

/// Every character's transmission ends with a letter space, and characters
/// without a code transmit nothing else.
pub proof fn lemma_char_morse_shape(c: char)
    ensures
        spec_char_morse(c).last() == Pulse::LetterSpace,
        spec_morse_code(c).len() == 0 ==> spec_char_morse(c) == seq![Pulse::LetterSpace],
{
    if spec_morse_code(c).len() == 0 {
        assert(spec_with_gaps(spec_morse_code(c)) =~= Seq::<Pulse>::empty());
        assert(spec_char_morse(c) =~= seq![Pulse::LetterSpace]);
    }
}

/// The International Morse code of the letters (written here as dots and
/// dashes: A .-, B -..., C -.-., D -.., E ., F ..-., G --., H ...., I ..,
/// J .---, K -.-, L .-.., M --, N -., O ---, P .--., Q --.-, R .-., S ...,
/// T -, U ..-, V ...-, W .--, X -..-, Y -.--, Z --..); a space is one letter
/// space, and a character without a code (a digit, a lower-case letter,
/// punctuation) has none.
pub proof fn lemma_international_morse(c: char)
    ensures
        spec_morse_code('A') == seq![Pulse::Dot, Pulse::Dash],
        spec_morse_code('B') == seq![Pulse::Dash, Pulse::Dot, Pulse::Dot, Pulse::Dot],
        spec_morse_code('C') == seq![Pulse::Dash, Pulse::Dot, Pulse::Dash, Pulse::Dot],
        spec_morse_code('D') == seq![Pulse::Dash, Pulse::Dot, Pulse::Dot],
        spec_morse_code('E') == seq![Pulse::Dot],
        spec_morse_code('F') == seq![Pulse::Dot, Pulse::Dot, Pulse::Dash, Pulse::Dot],
        spec_morse_code('G') == seq![Pulse::Dash, Pulse::Dash, Pulse::Dot],
        spec_morse_code('H') == seq![Pulse::Dot, Pulse::Dot, Pulse::Dot, Pulse::Dot],
        spec_morse_code('I') == seq![Pulse::Dot, Pulse::Dot],
        spec_morse_code('J') == seq![Pulse::Dot, Pulse::Dash, Pulse::Dash, Pulse::Dash],
        spec_morse_code('K') == seq![Pulse::Dash, Pulse::Dot, Pulse::Dash],
        spec_morse_code('L') == seq![Pulse::Dot, Pulse::Dash, Pulse::Dot, Pulse::Dot],
        spec_morse_code('M') == seq![Pulse::Dash, Pulse::Dash],
        spec_morse_code('N') == seq![Pulse::Dash, Pulse::Dot],
        spec_morse_code('O') == seq![Pulse::Dash, Pulse::Dash, Pulse::Dash],
        spec_morse_code('P') == seq![Pulse::Dot, Pulse::Dash, Pulse::Dash, Pulse::Dot],
        spec_morse_code('Q') == seq![Pulse::Dash, Pulse::Dash, Pulse::Dot, Pulse::Dash],
        spec_morse_code('R') == seq![Pulse::Dot, Pulse::Dash, Pulse::Dot],
        spec_morse_code('S') == seq![Pulse::Dot, Pulse::Dot, Pulse::Dot],
        spec_morse_code('T') == seq![Pulse::Dash],
        spec_morse_code('U') == seq![Pulse::Dot, Pulse::Dot, Pulse::Dash],
        spec_morse_code('V') == seq![Pulse::Dot, Pulse::Dot, Pulse::Dot, Pulse::Dash],
        spec_morse_code('W') == seq![Pulse::Dot, Pulse::Dash, Pulse::Dash],
        spec_morse_code('X') == seq![Pulse::Dash, Pulse::Dot, Pulse::Dot, Pulse::Dash],
        spec_morse_code('Y') == seq![Pulse::Dash, Pulse::Dot, Pulse::Dash, Pulse::Dash],
        spec_morse_code('Z') == seq![Pulse::Dash, Pulse::Dash, Pulse::Dot, Pulse::Dot],
        spec_morse_code(' ') == seq![Pulse::LetterSpace],
        !('A' <= c <= 'Z') && c != ' ' ==> spec_morse_code(c).len() == 0,
{
}

/// Distinct letters have distinct codes, and every letter's code is one to
/// four dots and dashes.
pub proof fn lemma_morse_codes_distinct(c1: char, c2: char)
    requires
        'A' <= c1 <= 'Z',
        'A' <= c2 <= 'Z',
    ensures
        spec_morse_code(c1) == spec_morse_code(c2) ==> c1 == c2,
        1 <= spec_morse_code(c1).len() <= 4,
        forall|i: int| 0 <= i < spec_morse_code(c1).len() ==> (#[trigger] spec_morse_code(c1)[i]) is Dot || spec_morse_code(c1)[i] is Dash,
{
    if spec_morse_code(c1) == spec_morse_code(c2) {
        assert(spec_morse_code(c1).len() == spec_morse_code(c2).len());
        assert(spec_morse_code(c1)[0] == spec_morse_code(c2)[0]);
        if spec_morse_code(c1).len() > 1 { assert(spec_morse_code(c1)[1] == spec_morse_code(c2)[1]); }
        if spec_morse_code(c1).len() > 2 { assert(spec_morse_code(c1)[2] == spec_morse_code(c2)[2]); }
        if spec_morse_code(c1).len() > 3 { assert(spec_morse_code(c1)[3] == spec_morse_code(c2)[3]); }
    }
}

/// The text the Morse beacon sends.
pub fn morse_message() -> (r: &'static str)
    ensures
        r@ == "LEGION"@,
{
    "LEGION"
}

/// Milliseconds of dark after each lit pulse.
pub const MORSE_AFTER_PULSE_MS: u64 = 200;

/// One tick of the Morse beacon.
#[derive(Clone, Copy, Debug, PartialEq, Eq, Structural)]
pub struct MorseTick {
    /// Whether the zones are lit during the tick.
    pub on: bool,
    /// How long the tick lasts, in milliseconds.
    pub wait_ms: u64,
    /// The position of the next tick.
    pub next_index: usize,
}

/// The tick at a position of a transmission: a dot is lit 200 ms, a dash
/// 600 ms, a gap dark 200 ms, a letter space dark 600 ms; past the end the
/// beacon rests 2 s and starts again (the next tick is at position 1).
pub open spec fn spec_morse_tick(pulses: Seq<Pulse>, index: int) -> MorseTick {
    if 0 <= index < pulses.len() {
        let (on, wait_ms) = match pulses[index] {
            Pulse::Dot => (true, 200u64),
            Pulse::Dash => (true, 600u64),
            Pulse::Gap => (false, 200u64),
            Pulse::LetterSpace => (false, 600u64),
        };
        MorseTick { on, wait_ms, next_index: (index + 1) as usize }
    } else {
        MorseTick { on: false, wait_ms: 2000, next_index: 1 }
    }
}

/// The tick at a position of a transmission.
pub fn morse_tick(pulses: &Vec<Pulse>, index: usize) -> (t: MorseTick)
    requires
        index < usize::MAX,
    ensures
        t == spec_morse_tick(pulses@, index as int),
{
    if index < pulses.len() {
        let (on, wait_ms) = match pulses[index] {
            Pulse::Dot => (true, 200u64),
            Pulse::Dash => (true, 600u64),
            Pulse::Gap => (false, 200u64),
            Pulse::LetterSpace => (false, 600u64),
        };
        MorseTick { on, wait_ms, next_index: index + 1 }
    } else {
        MorseTick { on: false, wait_ms: 2000, next_index: 1 }
    }
}


/// `rand::rngs::ThreadRng`, the thread-local generator the effects draw from.
#[verifier::external_type_specification]
#[verifier::external_body]
pub struct ExThreadRng(ThreadRng);

/// `Rng::random_range` on a half-open `usize` range: a value in `low..high`
/// (the range must not be empty, or the call panics).
#[verifier::external_body]
fn random_usize(rng: &mut ThreadRng, low: usize, high: usize) -> (r: usize)
    requires
        low < high,
    ensures
        low <= r < high,
{
    rng.random_range(low..high)
}

/// `Rng::random_range` on a half-open `u8` range: a value in `low..high`.
#[verifier::external_body]
fn random_u8(rng: &mut ThreadRng, low: u8, high: u8) -> (r: u8)
    requires
        low < high,
    ensures
        low <= r < high,
{
    rng.random_range(low..high)
}

/// `Rng::random_range` on a half-open `u64` range: a value in `low..high`.
#[verifier::external_body]
fn random_u64(rng: &mut ThreadRng, low: u64, high: u64) -> (r: u64)
    requires
        low < high,
    ensures
        low <= r < high,
{
    rng.random_range(low..high)
}

/// `Rng::random_range` on a half-open `i32` range: a value in `low..high`.
#[verifier::external_body]
fn random_i32(rng: &mut ThreadRng, low: i32, high: i32) -> (r: i32)
    requires
        low < high,
    ensures
        low <= r < high,
{
    rng.random_range(low..high)
}

/// `Rng::random_ratio`: true with chance `numerator` in `denominator`
/// (the call panics on a zero denominator or a numerator above it). A
/// numerator of 0 always gives false and a numerator equal to the
/// denominator always gives true; nothing is claimed of the chance itself.
#[verifier::external_body]
fn random_ratio(rng: &mut ThreadRng, numerator: u32, denominator: u32) -> (r: bool)
    requires
        0 < denominator,
        numerator <= denominator,
    ensures
        numerator == 0 ==> !r,
        numerator == denominator ==> r,
{
    rng.random_ratio(numerator, denominator)
}

/// Milliseconds between the fade steps of the first strike.
pub const FIRST_STRIKE_FADE_DELAY_MS: u64 = 2;
/// Milliseconds between the fade steps of the second strike.
pub const SECOND_STRIKE_FADE_DELAY_MS: u64 = 3;

/// One round of the lightning effect.
#[derive(Clone, Copy, Debug)]
pub struct LightningRound {
    /// The flash: the struck zone in its profile colour, the rest dark.
    pub frame: [u8; 12],
    /// Fade steps of the first strike.
    pub first_fade_steps: u8,
    /// Milliseconds between the strikes.
    pub pause_ms: u64,
    /// Fade steps of the second strike, when there is one.
    pub second_fade_steps: Option<u8>,
    /// Milliseconds of dark before the next round.
    pub rest_ms: u64,
}

/// The flash of a struck zone: that zone in its profile colour, the rest dark.
pub open spec fn spec_strike_frame(profile_array: Seq<u8>, zone: int) -> Seq<u8> {
    Seq::new(12, |i: int| if zone * 3 <= i < zone * 3 + 3 { profile_array[i] } else { 0u8 })
}

/// The round given the drawn zone, step count, pause, second-strike chance
/// and rest: the first strike fades in `steps / speed` steps, the second in
/// `steps / (2 * speed)`.
pub open spec fn spec_lightning_round(
    profile_array: Seq<u8>,
    speed: u8,
    zone: usize,
    steps: u8,
    pause_ms: u64,
    second_strike: bool,
    rest_ms: u64,
) -> (Seq<u8>, u8, u64, Option<u8>, u64) {
    (
        spec_strike_frame(profile_array, zone as int),
        (steps as int / speed as int) as u8,
        pause_ms,
        if second_strike { Some((steps as int / (2 * speed as int)) as u8) } else { None },
        rest_ms,
    )
}

/// The round given what was drawn.
pub fn lightning_round_from(
    profile_array: &[u8; 12],
    speed: u8,
    zone: usize,
    steps: u8,
    pause_ms: u64,
    second_strike: bool,
    rest_ms: u64,
) -> (r: LightningRound)
    requires
        1 <= speed <= 127,
        zone < 4,
    ensures
        (r.frame@, r.first_fade_steps, r.pause_ms, r.second_fade_steps, r.rest_ms)
            == spec_lightning_round(profile_array@, speed, zone, steps, pause_ms, second_strike, rest_ms),
{
    let mut frame: [u8; 12] = [0u8; 12];
    let start = zone * 3;
    frame[start] = profile_array[start];
    frame[start + 1] = profile_array[start + 1];
    frame[start + 2] = profile_array[start + 2];
    assert(frame@ =~= spec_strike_frame(profile_array@, zone as int));
    let second_fade_steps = if second_strike {
        Some(steps / (speed * 2))
    } else {
        None
    };
    LightningRound { frame, first_fade_steps: steps / speed, pause_ms, second_fade_steps, rest_ms }
}

/// Draws one round of the lightning effect: a zone in 0..4, 50..=200 fade
/// steps, a 20..80 ms pause, a second strike seven times in ten, and a rest
/// of 100..=2000 ms.
pub fn lightning_round(rng: &mut ThreadRng, profile_array: &[u8; 12], speed: u8) -> (r: LightningRound)
    requires
        1 <= speed <= 127,
    ensures
        exists|zone: usize, steps: u8, pause_ms: u64, second_strike: bool, rest_ms: u64| {
            &&& zone < 4
            &&& 50 <= steps <= 200
            &&& 20 <= pause_ms < 80
            &&& 100 <= rest_ms <= 2000
            &&& (r.frame@, r.first_fade_steps, r.pause_ms, r.second_fade_steps, r.rest_ms)
                    == spec_lightning_round(profile_array@, speed, zone, steps, pause_ms, second_strike, rest_ms)
        },
{
    let zone = random_usize(rng, 0, 4);
    let steps = random_u8(rng, 50, 201);
    let pause_ms = random_u64(rng, 20, 80);
    let second_strike = random_ratio(rng, 7, 10);
    let rest_ms = random_u64(rng, 100, 2001);
    lightning_round_from(profile_array, speed, zone, steps, pause_ms, second_strike, rest_ms)
}

/// Milliseconds a glitch scanline stays.
pub const GLITCH_SCANLINE_MS: u64 = 100;
/// Milliseconds a jittered base frame stays.
pub const GLITCH_JITTER_MS: u64 = 150;

/// One round of the glitch effect.
#[derive(Clone, Copy, Debug)]
pub enum GlitchRound {
    /// A static burst: bright random bytes for a short random time.
    Burst { frame: [u8; 12], hold_ms: u64 },
    /// One zone flashes magenta, the others keep the base colours.
    Scanline { frame: [u8; 12] },
    /// The base colours with a small random jitter on every byte.
    Jitter,
}

/// The scanline frame: the given zone magenta, the others in base colour.
pub open spec fn spec_scanline_frame(base: Seq<u8>, zone: int) -> Seq<u8> {
    Seq::new(12, |i: int| if i / 3 == zone {
        if i % 3 == 1 { 0u8 } else { 255u8 }
    } else {
        base[i]
    })
}

/// The scanline frame for a zone.
pub fn scanline_frame(base: &[u8; 12], zone: usize) -> (frame: [u8; 12])
    ensures
        frame@ == spec_scanline_frame(base@, zone as int),
{
    let mut frame: [u8; 12] = [0u8; 12];
    let mut i: usize = 0;
    while i < 4
        invariant
            i <= 4,
            forall|j: int| 0 <= j < 3 * i ==> frame@[j] == spec_scanline_frame(base@, zone as int)[j],
        decreases 4 - i,
    {
        if i == zone {
            frame[i * 3] = 255;
            frame[i * 3 + 1] = 0;
            frame[i * 3 + 2] = 255;
        } else {
            frame[i * 3] = base[i * 3];
            frame[i * 3 + 1] = base[i * 3 + 1];
            frame[i * 3 + 2] = base[i * 3 + 2];
        }
        i = i + 1;
    }
    assert(frame@ =~= spec_scanline_frame(base@, zone as int));
    frame
}

/// The kinds of glitch round.
#[derive(Clone, Copy, Debug, PartialEq, Eq, Structural)]
pub enum GlitchKind {
    Burst,
    Scanline,
    Jitter,
}

/// The kind of round a draw in 0..100 selects: below 10 a burst, below 25 a
/// scanline, otherwise a jitter.
pub open spec fn spec_glitch_kind(draw: int) -> GlitchKind {
    if draw < 10 {
        GlitchKind::Burst
    } else if draw < 25 {
        GlitchKind::Scanline
    } else {
        GlitchKind::Jitter
    }
}

/// The kind of round a draw selects.
pub fn glitch_kind(draw: i32) -> (k: GlitchKind)
    ensures
        k == spec_glitch_kind(draw as int),
{
    if draw < 10 {
        GlitchKind::Burst
    } else if draw < 25 {
        GlitchKind::Scanline
    } else {
        GlitchKind::Jitter
    }
}

/// The round given what was drawn: the kind picked by `draw`, a burst of
/// the bytes `burst` held `hold_ms` ms, or the scanline frame of `zone`, or
/// a jitter.
pub open spec fn spec_glitch_round(base: Seq<u8>, draw: int, burst: Seq<u8>, hold_ms: u64, zone: int, r: GlitchRound) -> bool {
    match spec_glitch_kind(draw) {
        GlitchKind::Burst => r matches GlitchRound::Burst { frame, hold_ms: h } && frame@ == burst && h == hold_ms,
        GlitchKind::Scanline => r matches GlitchRound::Scanline { frame } && frame@ == spec_scanline_frame(base, zone),
        GlitchKind::Jitter => r is Jitter,
    }
}

/// The glitch round given what was drawn.
pub fn glitch_round_from(base: &[u8; 12], draw: i32, burst: [u8; 12], hold_ms: u64, zone: usize) -> (r: GlitchRound)
    requires
        zone < 4,
    ensures
        spec_glitch_round(base@, draw as int, burst@, hold_ms, zone as int, r),
{
    match glitch_kind(draw) {
        GlitchKind::Burst => GlitchRound::Burst { frame: burst, hold_ms },
        GlitchKind::Scanline => GlitchRound::Scanline { frame: scanline_frame(base, zone) },
        GlitchKind::Jitter => GlitchRound::Jitter,
    }
}

/// Draws one round of the glitch effect: a draw in 0..100 picks its kind
/// (see `glitch_kind`); a burst draws twelve bytes in 150..255 and a hold of
/// 20..60 ms, a scanline draws a zone in 0..4.
pub fn glitch_round(rng: &mut ThreadRng, base: &[u8; 12]) -> (r: GlitchRound)
    ensures
        exists|draw: int, burst: Seq<u8>, hold_ms: u64, zone: int| {
            &&& 0 <= draw < 100
            &&& burst.len() == 12
            &&& forall|i: int| 0 <= i < 12 ==> 150 <= #[trigger] burst[i] < 255
            &&& 20 <= hold_ms < 60
            &&& 0 <= zone < 4
            &&& spec_glitch_round(base@, draw, burst, hold_ms, zone, r)
        },
{
    let draw = random_i32(rng, 0, 100);
    let kind = glitch_kind(draw);
    let mut burst: [u8; 12] = [150u8; 12];
    let mut hold_ms: u64 = 20;
    let mut zone: usize = 0;
    if kind == GlitchKind::Burst {
        let mut i: usize = 0;
        while i < 12
            invariant
                i <= 12,
                forall|j: int| 0 <= j < 12 ==> 150 <= #[trigger] burst@[j] < 255,
            decreases 12 - i,
        {
            burst[i] = random_u8(rng, 150, 255);
            i = i + 1;
        }
        hold_ms = random_u64(rng, 20, 60);
    } else if kind == GlitchKind::Scanline {
        zone = random_usize(rng, 0, 4);
    }
    let r = glitch_round_from(base, draw, burst, hold_ms, zone);
    assert(spec_glitch_round(base@, draw as int, burst@, hold_ms, zone as int, r));
    r
}

/// The two emergency strobes.
#[derive(Clone, Copy, Debug, PartialEq, Eq, Structural)]
pub enum EmergencyType {
    Police,
    Ambulance,
}

/// An emergency strobe: two frames shown in turn, each held `hold_us`
/// microseconds.
#[derive(Clone, Copy, Debug)]
pub struct EmergencyPattern {
    pub first: [u8; 12],
    pub second: [u8; 12],
    pub hold_us: u64,
}

/// The emergency frames: police is red on the left zones then blue on the
/// right zones; ambulance is all white then all red.
pub open spec fn spec_emergency_frames(kind: EmergencyType) -> (Seq<u8>, Seq<u8>) {
    match kind {
        EmergencyType::Police => (
            Seq::new(12, |i: int| if i == 0 || i == 3 { 255u8 } else { 0u8 }),
            Seq::new(12, |i: int| if i == 8 || i == 11 { 255u8 } else { 0u8 }),
        ),
        EmergencyType::Ambulance => (
            Seq::new(12, |i: int| 255u8),
            Seq::new(12, |i: int| if i % 3 == 0 { 255u8 } else { 0u8 }),
        ),
    }
}

/// The strobe of an emergency type at a speed: the period is 500 / speed
/// milliseconds (a speed of 0 counts as 1), each frame holds half of it
/// for police and a quarter for the ambulance.
pub fn emergency_pattern(kind: EmergencyType, speed: u8) -> (r: EmergencyPattern)
    ensures
        (r.first@, r.second@) == spec_emergency_frames(kind),
        r.hold_us == (match kind {
            EmergencyType::Police => (500int / (if speed == 0 { 1int } else { speed as int })) * 1000 / 2,
            EmergencyType::Ambulance => (500int / (if speed == 0 { 1int } else { speed as int })) * 1000 / 4,
        }),
{
    let s: u64 = if speed == 0 { 1 } else { speed as u64 };
    let period_ms: u64 = 500 / s;
    match kind {
        EmergencyType::Police => {
            let mut first: [u8; 12] = [0u8; 12];
            first[0] = 255;
            first[3] = 255;
            let mut second: [u8; 12] = [0u8; 12];
            second[8] = 255;
            second[11] = 255;
            assert(first@ =~= spec_emergency_frames(kind).0);
            assert(second@ =~= spec_emergency_frames(kind).1);
            EmergencyPattern { first, second, hold_us: period_ms * 1000 / 2 }
        },
        EmergencyType::Ambulance => {
            let first: [u8; 12] = [255u8; 12];
            let second: [u8; 12] = [255, 0, 0, 255, 0, 0, 255, 0, 0, 255, 0, 0];
            assert(first@ =~= spec_emergency_frames(kind).0);
            assert(second@ =~= spec_emergency_frames(kind).1);
            EmergencyPattern { first, second, hold_us: period_ms * 1000 / 4 }
        },
    }
}

/// The focus lamp: warm white on the middle zones, a very dim glow on the
/// outer ones.
pub fn focus_lamp_frame() -> (frame: [u8; 12])
    ensures
        frame@ == seq![20u8, 10u8, 5u8, 255u8, 180u8, 100u8, 255u8, 180u8, 100u8, 20u8, 10u8, 5u8],
{
    let frame: [u8; 12] = [20, 10, 5, 255, 180, 100, 255, 180, 100, 20, 10, 5];
    assert(frame@ =~= seq![20u8, 10u8, 5u8, 255u8, 180u8, 100u8, 255u8, 180u8, 100u8, 20u8, 10u8, 5u8]);
    frame
}


/// Where the heartbeat's two-second cycle stands.
#[derive(Clone, Copy, Debug, PartialEq, Eq, Structural)]
pub enum HeartbeatPhase {
    /// The strong beat, `progress_ms` into its 400 ms.
    Lub { progress_ms: u64 },
    /// The weak beat, `progress_ms` into its 300 ms.
    Dub { progress_ms: u64 },
    /// Between beats.
    Rest,
}

/// The phase of the heartbeat rhythm `elapsed_ms` after it started: every
/// 2000 ms a "lub" during the first 400 ms, a pause, a "dub" from 500 to
/// 800 ms, then rest.
pub open spec fn spec_heartbeat_phase(elapsed_ms: int) -> HeartbeatPhase {
    let t = elapsed_ms % 2000;
    if t < 400 {
        HeartbeatPhase::Lub { progress_ms: t as u64 }
    } else if 500 <= t < 800 {
        HeartbeatPhase::Dub { progress_ms: (t - 500) as u64 }
    } else {
        HeartbeatPhase::Rest
    }
}

/// The phase of the heartbeat rhythm.
pub fn heartbeat_phase(elapsed_ms: u128) -> (p: HeartbeatPhase)
    ensures
        p == spec_heartbeat_phase(elapsed_ms as int),
{
    let t = elapsed_ms % 2000;
    if t < 400 {
        HeartbeatPhase::Lub { progress_ms: t as u64 }
    } else if 500 <= t && t < 800 {
        HeartbeatPhase::Dub { progress_ms: (t - 500) as u64 }
    } else {
        HeartbeatPhase::Rest
    }
}

/// The beacon's timing: a dot is lit for 200 ms and a dash for 600 ms, a
/// gap is 200 ms dark and a letter space 600 ms dark, each tick moves to the
/// next pulse, and past the end the beacon rests 2 s dark and starts again
/// at position 1.
pub proof fn lemma_morse_timing(pulses: Seq<Pulse>, index: int)
    ensures
        0 <= index < pulses.len() && pulses[index] == Pulse::Dot ==> spec_morse_tick(pulses, index).on && spec_morse_tick(pulses, index).wait_ms == 200,
        0 <= index < pulses.len() && pulses[index] == Pulse::Dash ==> spec_morse_tick(pulses, index).on && spec_morse_tick(pulses, index).wait_ms == 600,
        0 <= index < pulses.len() && pulses[index] == Pulse::Gap ==> !spec_morse_tick(pulses, index).on && spec_morse_tick(pulses, index).wait_ms == 200,
        0 <= index < pulses.len() && pulses[index] == Pulse::LetterSpace ==> !spec_morse_tick(pulses, index).on && spec_morse_tick(pulses, index).wait_ms == 600,
        0 <= index < pulses.len() && index < usize::MAX ==> spec_morse_tick(pulses, index).next_index == index + 1,
        index >= pulses.len() ==> spec_morse_tick(pulses, index) == (MorseTick { on: false, wait_ms: 2000, next_index: 1 }),
{
}

/// The heartbeat repeats every two seconds: a strong beat during its first
/// 400 ms, a pause until 500 ms, a weak beat until 800 ms, then rest.
pub proof fn lemma_heartbeat_rhythm(t: int)
    requires
        t >= 0,
    ensures
        spec_heartbeat_phase(t + 2000) == spec_heartbeat_phase(t),
        t % 2000 < 400 ==> spec_heartbeat_phase(t) == (HeartbeatPhase::Lub { progress_ms: (t % 2000) as u64 }),
        400 <= t % 2000 < 500 ==> spec_heartbeat_phase(t) == HeartbeatPhase::Rest,
        500 <= t % 2000 < 800 ==> spec_heartbeat_phase(t) == (HeartbeatPhase::Dub { progress_ms: (t % 2000 - 500) as u64 }),
        800 <= t % 2000 ==> spec_heartbeat_phase(t) == HeartbeatPhase::Rest,
{
    assert((t + 2000) % 2000 == t % 2000);
}

/// The strobes: police flashes the left two zones red, then the right two
/// zones blue; the ambulance flashes everything white, then every zone red.
pub proof fn lemma_emergency_strobes(kind: EmergencyType, z: int)
    requires
        0 <= z < 4,
    ensures
        spec_emergency_frames(kind).0.len() == 12 && spec_emergency_frames(kind).1.len() == 12,
        kind == EmergencyType::Police ==> {
            let (a, b) = spec_emergency_frames(kind);
            &&& a[3 * z] == (if z < 2 { 255u8 } else { 0u8 }) && a[3 * z + 1] == 0 && a[3 * z + 2] == 0
            &&& b[3 * z] == 0 && b[3 * z + 1] == 0 && b[3 * z + 2] == (if z >= 2 { 255u8 } else { 0u8 })
        },
        kind == EmergencyType::Ambulance ==> {
            let (a, b) = spec_emergency_frames(kind);
            &&& a[3 * z] == 255 && a[3 * z + 1] == 255 && a[3 * z + 2] == 255
            &&& b[3 * z] == 255 && b[3 * z + 1] == 0 && b[3 * z + 2] == 0
        },
{
    assert((3 * z) % 3 == 0 && (3 * z + 1) % 3 == 1 && (3 * z + 2) % 3 == 2);
}

/// A lightning flash shows the struck zone in its profile colour and
/// leaves the other zones dark; a scanline paints its zone magenta and
/// leaves the others in their base colours.
pub proof fn lemma_flash_frames(colors: Seq<u8>, zone: int, z: int, c: int)
    requires
        colors.len() == 12,
        0 <= zone < 4,
        0 <= z < 4,
        0 <= c < 3,
    ensures
        spec_strike_frame(colors, zone).len() == 12,
        spec_strike_frame(colors, zone)[3 * z + c] == (if z == zone { colors[3 * z + c] } else { 0u8 }),
        spec_scanline_frame(colors, zone).len() == 12,
        spec_scanline_frame(colors, zone)[3 * z + c] == (if z != zone { colors[3 * z + c] } else if c == 1 { 0u8 } else { 255u8 }),
{
    assert((3 * z + c) / 3 == z && (3 * z + c) % 3 == c);
}

} // verus!
