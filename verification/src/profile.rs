//! Profiles (what an effect is run with) and custom effects (scripted
//! sequences of colour steps).
use vstd::prelude::*;
use crate::enums::{Brightness, Direction, Effects};

verus! {

/// The colour of one keyboard zone.
#[derive(Clone, Copy, Debug)]
pub struct Zone {
    pub rgb: [u8; 3],
}

/// A named lighting setup: an effect, its zone colours, speed, brightness,
/// direction and the base colour used by the reactive effects.
#[derive(Debug)]
pub struct Profile {
    pub name: Option<String>,
    pub rgb_zones: [Zone; 4],
    pub effect: Effects,
    pub direction: Direction,
    pub speed: u8,
    pub brightness: Brightness,
    pub base_color: [u8; 3],
}

/// The twelve colour bytes of four zones, zone after zone.
pub open spec fn spec_rgb_array(zones: [Zone; 4]) -> Seq<u8> {
    Seq::new(12, |i: int| zones@[i / 3].rgb@[i % 3])
}

impl Profile {
    /// The zone colours as twelve bytes, zone after zone.
    pub fn rgb_array(&self) -> (r: [u8; 12])
        ensures
            r@ == spec_rgb_array(self.rgb_zones),
    {
        let mut r: [u8; 12] = [0u8; 12];
        let mut z: usize = 0;
        while z < 4
            invariant
                z <= 4,
                forall|i: int| 0 <= i < 3 * z ==> #[trigger] r@[i] == self.rgb_zones@[i / 3].rgb@[i % 3],
            decreases 4 - z,
        {
            r[3 * z] = self.rgb_zones[z].rgb[0];
            r[3 * z + 1] = self.rgb_zones[z].rgb[1];
            r[3 * z + 2] = self.rgb_zones[z].rgb[2];
            z = z + 1;
        }
        assert(r@ =~= spec_rgb_array(self.rgb_zones));
        r
    }
}

impl Clone for Profile {
    fn clone(&self) -> (r: Self)
        ensures
            r == *self,
    {
        let name = match &self.name {
            Some(n) => Some(n.clone()),
            None => None,
        };
        Profile {
            name,
            rgb_zones: self.rgb_zones,
            effect: self.effect,
            direction: self.direction,
            speed: self.speed,
            brightness: self.brightness,
            base_color: self.base_color,
        }
    }
}

/// The profile used when none is given: unnamed, lightning, leftwards,
/// speed 1, low brightness, all colours black.
pub open spec fn is_default_profile(p: Profile) -> bool {
    &&& p.name is None
    &&& p.effect is Lightning
    &&& p.direction == Direction::Left
    &&& p.speed == 1
    &&& p.brightness == Brightness::Low
    &&& spec_rgb_array(p.rgb_zones) == Seq::new(12, |i: int| 0u8)
    &&& p.base_color@ == seq![0u8, 0u8, 0u8]
}

impl Default for Profile {
    fn default() -> (r: Self)
        ensures
            is_default_profile(r),
    {
        let z = Zone { rgb: [0u8; 3] };
        let p = Profile {
            name: None,
            rgb_zones: [z, z, z, z],
            effect: Effects::Lightning,
            direction: Direction::Left,
            speed: 1,
            brightness: Brightness::Low,
            base_color: [0u8; 3],
        };
        assert(spec_rgb_array(p.rgb_zones) =~= Seq::new(12, |i: int| 0u8));
        assert(p.base_color@ =~= seq![0u8, 0u8, 0u8]);
        p
    }
}

/// Whether a custom step jumps to its colours or fades into them.
#[derive(Clone, Copy, Debug, PartialEq, Eq, Structural)]
pub enum EffectType {
    Direct,
    Transition,
}

/// One step of a custom effect.
#[derive(Clone, Copy, Debug)]
pub struct EffectStep {
    pub rgb_array: [u8; 12],
    pub step_type: EffectType,
    pub brightness: u8,
    pub steps: u8,
    pub delay_between_steps: u64,
    pub sleep: u64,
}

/// A scripted sequence of steps, played once or in a loop.
#[derive(Debug)]
pub struct CustomEffect {
    pub effect_steps: Vec<EffectStep>,
    pub should_loop: bool,
}

} // verus!
