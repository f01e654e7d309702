//! Colours in hue, saturation and lightness, kept as fixed-point integers.
//!
//! Hue is counted in thousandths of a degree, saturation and lightness in
//! thousandths of the unit interval.

use crate::rng::draw;
use rand::rngs::SmallRng;
use vstd::prelude::*;

verus! {

/// A full turn of the hue circle, in thousandths of a degree.
pub const HUE_FULL: u32 = 360_000;

/// Half a turn of the hue circle.
pub const HUE_HALF: u32 = 180_000;

/// The top of the saturation and lightness scales.
pub const UNIT: u32 = 1000;

/// How many samples a search for a contrasting colour takes before it turns
/// to the hue across the circle.
pub const CONTRAST_ATTEMPTS: u32 = 100;

/// The mathematical value of a colour.
pub struct HslView {
    pub hue: int,
    pub saturation: int,
    pub lightness: int,
}

impl HslView {
    /// Every component lies in its range; the hue may sit on either end of the
    /// circle.
    pub open spec fn in_range(self) -> bool {
        &&& 0 <= self.hue <= HUE_FULL
        &&& 0 <= self.saturation <= UNIT
        &&& 0 <= self.lightness <= UNIT
    }

    /// The colour with `amount` added to its lightness, which is then held
    /// between a tenth and nine tenths.
    pub open spec fn lighter(self, amount: int) -> HslView {
        HslView { lightness: clamped(self.lightness + amount, 100, 900), ..self }
    }
}

/// `v` forced into `lo..=hi`.
pub open spec fn clamped(v: int, lo: int, hi: int) -> int {
    if v < lo {
        lo
    } else if v > hi {
        hi
    } else {
        v
    }
}

/// The shorter of the two arcs between two hues.
pub open spec fn hue_distance(a: int, b: int) -> int {
    let d = if a >= b { a - b } else { b - a };
    if d <= HUE_FULL - d { d } else { HUE_FULL - d }
}

/// The hue on the other side of the circle.
pub open spec fn opposite_hue(h: int) -> int {
    (h + HUE_HALF) % (HUE_FULL as int)
}

/// What a search with a budget of `budget` colours does with the colour
/// `candidate` that it has drawn after turning `tried` others down. A colour
/// that suits is taken. One that does not is turned down, unless it is the
/// last of the budget: that one is taken with its hue set to `fallback_hue`.
pub open spec fn settled(
    candidate: HslView,
    suits: bool,
    fallback_hue: int,
    tried: int,
    budget: int,
) -> Option<HslView> {
    if suits {
        Some(candidate)
    } else if tried + 1 >= budget {
        Some(HslView { hue: fallback_hue, ..candidate })
    } else {
        None
    }
}

/// A colour as a display takes it: red and blue in five bits, green in six.
#[derive(Clone, Copy, Debug, PartialEq, Eq, Structural)]
pub struct DisplayColor {
    pub r: u8,
    pub g: u8,
    pub b: u8,
}

impl DisplayColor {
    /// No light at all.
    pub open spec fn spec_black() -> DisplayColor {
        DisplayColor { r: 0, g: 0, b: 0 }
    }

    /// Every channel at the top of its depth.
    pub open spec fn spec_white() -> DisplayColor {
        DisplayColor { r: 31, g: 63, b: 31 }
    }

    /// No light at all.
    #[verifier::when_used_as_spec(spec_black)]
    pub fn black() -> (color: DisplayColor)
        ensures
            color == Self::spec_black(),
    {
        DisplayColor { r: 0, g: 0, b: 0 }
    }

    /// Every channel at the top of its depth.
    #[verifier::when_used_as_spec(spec_white)]
    pub fn white() -> (color: DisplayColor)
        ensures
            color == Self::spec_white(),
    {
        DisplayColor { r: 31, g: 63, b: 31 }
    }
}

/// The widest saturation: how far the lightness leaves room on both sides,
/// times the saturation. In millionths.
pub open spec fn chroma(saturation: int, lightness: int) -> int {
    let spread = if 2 * lightness >= UNIT {
        2 * lightness - UNIT
    } else {
        UNIT - 2 * lightness
    };
    (UNIT - spread) * saturation
}

/// The rise and fall of the middle channel inside a third of the circle:
/// 0 at its ends, 60 000 in the middle.
pub open spec fn ramp(hue: int) -> int {
    let phase = hue % 120_000;
    if phase >= 60_000 {
        120_000 - phase
    } else {
        phase
    }
}

/// What one channel is counted in: `CHANNEL_SCALE` stands for full intensity.
pub const CHANNEL_SCALE: u64 = 60_000_000_000;

/// Red, green and blue before the lightness offset is added, by the sixth of
/// the circle that the hue lies in.
pub open spec fn rgb_parts(v: HslView) -> (int, int, int) {
    let c = chroma(v.saturation, v.lightness) * 60_000;
    let x = chroma(v.saturation, v.lightness) * ramp(v.hue);
    if v.hue < 60_000 {
        (c, x, 0)
    } else if v.hue < 120_000 {
        (x, c, 0)
    } else if v.hue < 180_000 {
        (0, c, x)
    } else if v.hue < 240_000 {
        (0, x, c)
    } else if v.hue < 300_000 {
        (x, 0, c)
    } else {
        (c, 0, x)
    }
}

/// What the lightness adds to every channel.
pub open spec fn lightness_offset(v: HslView) -> int {
    v.lightness * 60_000_000 - chroma(v.saturation, v.lightness) * 30_000
}

/// A channel on the scale 0..=255, rounded down.
pub open spec fn channel(part: int, offset: int) -> int {
    (part + offset) * 255 / (CHANNEL_SCALE as int)
}

/// The colour in eight bits a channel.
pub open spec fn rgb888(v: HslView) -> (int, int, int) {
    let (r, g, b) = rgb_parts(v);
    let m = lightness_offset(v);
    (channel(r, m), channel(g, m), channel(b, m))
}

/// The colour cut down to the display's depth.
pub open spec fn display_color(v: HslView) -> DisplayColor {
    let (r, g, b) = rgb888(v);
    DisplayColor { r: (r * 31 / 255) as u8, g: (g * 63 / 255) as u8, b: (b * 31 / 255) as u8 }
}

proof fn lemma_product_bound(a: int, b: int, a_max: int, b_max: int)
    by (nonlinear_arith)
    requires
        0 <= a <= a_max,
        0 <= b <= b_max,
    ensures
        0 <= a * b <= a_max * b_max,
{
}

/// Every channel of a colour in range fits in eight bits.
pub proof fn lemma_rgb888_in_range(v: HslView)
    requires
        v.in_range(),
    ensures
        0 <= chroma(v.saturation, v.lightness) <= 1_000_000,
        0 <= ramp(v.hue) <= 60_000,
        0 <= lightness_offset(v),
        0 <= rgb_parts(v).0 && rgb_parts(v).0 + lightness_offset(v) <= CHANNEL_SCALE,
        0 <= rgb_parts(v).1 && rgb_parts(v).1 + lightness_offset(v) <= CHANNEL_SCALE,
        0 <= rgb_parts(v).2 && rgb_parts(v).2 + lightness_offset(v) <= CHANNEL_SCALE,
        0 <= rgb888(v).0 <= 255,
        0 <= rgb888(v).1 <= 255,
        0 <= rgb888(v).2 <= 255,
{
    let l = v.lightness;
    let s = v.saturation;
    let spread = if 2 * l >= UNIT { 2 * l - UNIT } else { UNIT - 2 * l };
    let room = UNIT - spread;
    let c = chroma(s, l);
    assert(c == room * s);
    assert(0 <= room <= 2 * l && room <= 2000 - 2 * l && room <= 1000);
    lemma_product_bound(room, s, 2 * l, 1000);
    lemma_product_bound(room, s, 2000 - 2 * l, 1000);
    lemma_product_bound(room, s, 1000, 1000);
    assert(c <= 2000 * l && c <= 2_000_000 - 2000 * l && c <= 1_000_000);
    let x = c * ramp(v.hue);
    lemma_product_bound(c, ramp(v.hue), c, 60_000);
    assert(0 <= x <= c * 60_000);
}

/// A colour by hue, saturation and lightness. Its components always lie in
/// their ranges.
#[derive(Clone, Copy, Debug)]
pub struct Hsl {
    h: u32,
    s: u32,
    l: u32,
}

impl View for Hsl {
    type V = HslView;

    closed spec fn view(&self) -> HslView {
        HslView { hue: self.h as int, saturation: self.s as int, lightness: self.l as int }
    }
}

impl Hsl {
    /// What holds of every colour: its components lie in their ranges.
    #[verifier::type_invariant]
    pub open spec fn valid(self) -> bool {
        self@.in_range()
    }

    /// The colour of the hue `h`, in thousandths of a degree, the saturation
    /// `s` and the lightness `l`, in thousandths, each forced into its range.
    pub fn new(h: i32, s: i32, l: i32) -> (color: Hsl)
        ensures
            color@.hue == clamped(h as int, 0, HUE_FULL as int),
            color@.saturation == clamped(s as int, 0, UNIT as int),
            color@.lightness == clamped(l as int, 0, UNIT as int),
    {
        let h: u32 = if h < 0 { 0 } else if h > 360_000 { HUE_FULL } else { h as u32 };
        let s: u32 = if s < 0 { 0 } else if s > 1000 { UNIT } else { s as u32 };
        let l: u32 = if l < 0 { 0 } else if l > 1000 { UNIT } else { l as u32 };
        Hsl { h, s, l }
    }

    /// The hue, in thousandths of a degree.
    pub fn hue(&self) -> (h: u32)
        ensures
            h == self@.hue,
            h <= HUE_FULL,
    {
        proof {
            use_type_invariant(self);
        }
        self.h
    }

    /// The saturation, in thousandths.
    pub fn saturation(&self) -> (s: u32)
        ensures
            s == self@.saturation,
            s <= UNIT,
    {
        proof {
            use_type_invariant(self);
        }
        self.s
    }

    /// The lightness, in thousandths.
    pub fn lightness(&self) -> (l: u32)
        ensures
            l == self@.lightness,
            l <= UNIT,
    {
        proof {
            use_type_invariant(self);
        }
        self.l
    }

    /// The colour in eight bits a channel, by the usual conversion from hue,
    /// saturation and lightness, each channel rounded down.
    pub fn to_rgb888(&self) -> (rgb: (u8, u8, u8))
        ensures
            rgb.0 == rgb888(self@).0,
            rgb.1 == rgb888(self@).1,
            rgb.2 == rgb888(self@).2,
    {
        proof {
            use_type_invariant(self);
            lemma_rgb888_in_range(self@);
        }
        let h: u64 = self.h as u64;
        let s: u64 = self.s as u64;
        let l: u64 = self.l as u64;
        let spread: u64 = if 2 * l >= 1000 { 2 * l - 1000 } else { 1000 - 2 * l };
        let c: u64 = (1000 - spread) * s;
        let phase: u64 = h % 120_000;
        let slope: u64 = if phase >= 60_000 { 120_000 - phase } else { phase };
        let full: u64 = c * 60_000;
        let part: u64 = c * slope;
        let m: u64 = l * 60_000_000 - c * 30_000;
        let (r1, g1, b1): (u64, u64, u64) = if h < 60_000 {
            (full, part, 0)
        } else if h < 120_000 {
            (part, full, 0)
        } else if h < 180_000 {
            (0, full, part)
        } else if h < 240_000 {
            (0, part, full)
        } else if h < 300_000 {
            (part, 0, full)
        } else {
            (full, 0, part)
        };
        let r: u64 = (r1 + m) * 255 / CHANNEL_SCALE;
        let g: u64 = (g1 + m) * 255 / CHANNEL_SCALE;
        let b: u64 = (b1 + m) * 255 / CHANNEL_SCALE;
        (r as u8, g as u8, b as u8)
    }

    /// The colour at the display's depth.
    pub fn to_rgb(&self) -> (color: DisplayColor)
        ensures
            color == display_color(self@),
            color.r <= 31,
            color.g <= 63,
            color.b <= 31,
    {
        let (r, g, b) = self.to_rgb888();
        proof {
            use_type_invariant(self);
            lemma_rgb888_in_range(self@);
        }
        DisplayColor {
            r: (r as u32 * 31 / 255) as u8,
            g: (g as u32 * 63 / 255) as u8,
            b: (b as u32 * 31 / 255) as u8,
        }
    }

    /// How far the hues of the two colours lie apart on the circle, by the
    /// shorter way round.
    pub fn angle_difference(&self, other: &Hsl) -> (d: u32)
        ensures
            d == hue_distance(self@.hue, other@.hue),
            d <= HUE_HALF,
    {
        proof {
            use_type_invariant(self);
            use_type_invariant(other);
        }
        let diff: u32 = if self.h >= other.h { self.h - other.h } else { other.h - self.h };
        if diff <= HUE_FULL - diff { diff } else { HUE_FULL - diff }
    }

    /// The colour across the circle from `self`, with the saturation and
    /// lightness given.
    pub fn opposite(&self, s: u32, l: u32) -> (color: Hsl)
        ensures
            color@.hue == opposite_hue(self@.hue),
            color@.saturation == clamped(s as int, 0, UNIT as int),
            color@.lightness == clamped(l as int, 0, UNIT as int),
    {
        proof {
            use_type_invariant(self);
        }
        let h: u32 = (self.h + HUE_HALF) % HUE_FULL;
        Hsl {
            h,
            s: if s > UNIT { UNIT } else { s },
            l: if l > UNIT { UNIT } else { l },
        }
    }

    /// A colour of any hue whose saturation and lightness are drawn from the
    /// half-open ranges given.
    pub fn random(
        rng: &mut SmallRng,
        saturation_low: u32,
        saturation_high: u32,
        lightness_low: u32,
        lightness_high: u32,
    ) -> (color: Hsl)
        requires
            saturation_low < saturation_high <= UNIT,
            lightness_low < lightness_high <= UNIT,
        ensures
            0 <= color@.hue < HUE_FULL,
            saturation_low <= color@.saturation < saturation_high,
            lightness_low <= color@.lightness < lightness_high,
    {
        let h = draw(rng, 0, HUE_FULL);
        let s = draw(rng, saturation_low, saturation_high);
        let l = draw(rng, lightness_low, lightness_high);
        Hsl { h, s, l }
    }

    /// What a search with a budget of `budget` colours does with `self`, a
    /// colour that it has drawn after turning `tried` others down: `self` is
    /// taken if it suits; the last colour of the budget is taken in any case,
    /// turned to the hue across the circle from `across_from` if it does not
    /// suit; any other is turned down.
    pub fn settle(self, suits: bool, across_from: &Hsl, tried: u32, budget: u32) -> (choice:
        Option<Hsl>)
        ensures
            suits ==> choice == Some(self),
            choice matches Some(color) ==> Some(color@) == settled(
                self@,
                suits,
                opposite_hue(across_from@.hue),
                tried as int,
                budget as int,
            ),
            choice is None ==> settled(
                self@,
                suits,
                opposite_hue(across_from@.hue),
                tried as int,
                budget as int,
            ) is None,
    {
        if suits {
            Some(self)
        } else if budget == 0 || tried >= budget - 1 {
            proof {
                use_type_invariant(&self);
            }
            Some(across_from.opposite(self.s, self.l))
        } else {
            None
        }
    }

    /// A vivid colour whose hue lies at least `min_diff` from that of `base`.
    /// Colours are drawn until `settle` takes one, with a budget of
    /// `CONTRAST_ATTEMPTS`: the first that is far enough, or else the last one
    /// drawn, turned to the hue across the circle from `base`.
    pub fn random_with_min_difference(rng: &mut SmallRng, base: &Hsl, min_diff: u32) -> (color:
        Hsl)
        ensures
            0 <= color@.hue < HUE_FULL,
            500 <= color@.saturation < 900,
            400 <= color@.lightness < 700,
            hue_distance(color@.hue, base@.hue) >= min_diff || color@.hue == opposite_hue(
                base@.hue,
            ),
    {
        let mut tried: u32 = 0;
        loop
            invariant
                tried < CONTRAST_ATTEMPTS,
            decreases CONTRAST_ATTEMPTS - tried,
        {
            let candidate = Hsl::random(rng, 500, 900, 400, 700);
            let suits = candidate.angle_difference(base) >= min_diff;
            match candidate.settle(suits, base, tried, CONTRAST_ATTEMPTS) {
                Some(color) => {
                    return color;
                },
                None => {
                    tried += 1;
                },
            }
        }
    }

    /// A copy whose lightness is raised by `amount` and then held between a
    /// tenth and nine tenths.
    pub fn lighter(&self, amount: i32) -> (color: Hsl)
        ensures
            color@ == self@.lighter(amount as int),
    {
        proof {
            use_type_invariant(self);
        }
        let raised: i64 = self.l as i64 + amount as i64;
        let l: u32 = if raised < 100 { 100 } else if raised > 900 { 900 } else { raised as u32 };
        Hsl { h: self.h, s: self.s, l }
    }
}

/// The distance between two hues does not depend on their order.
pub proof fn lemma_hue_distance_symmetric(a: int, b: int)
    ensures
        hue_distance(a, b) == hue_distance(b, a),
{
}

/// Two hues on the circle are never more than half a turn apart.
pub proof fn lemma_hue_distance_bounded(a: int, b: int)
    requires
        0 <= a <= HUE_FULL,
        0 <= b <= HUE_FULL,
    ensures
        0 <= hue_distance(a, b) <= HUE_HALF,
{
}

/// The hue across the circle lies exactly half a turn away, so it meets every
/// distance that can be asked for.
pub proof fn lemma_opposite_hue_is_half_a_turn_away(h: int)
    requires
        0 <= h <= HUE_FULL,
    ensures
        0 <= opposite_hue(h) < HUE_FULL,
        hue_distance(opposite_hue(h), h) == HUE_HALF,
{
}

} // verus!
