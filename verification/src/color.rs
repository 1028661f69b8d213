//! Conversion of a hue, saturation, lightness and opacity into a clear colour,
//! in exact fixed-point arithmetic.
//!
//! A hue is an integer number of units of which `DEGREE` make one degree.
//! Saturation, lightness and opacity are integers of which `ONE` make 1.0.
//! A channel of the result is the numerator of a fraction over `CHANNEL_ONE`.
//! Nothing is rounded: every value below is the exact rational that the
//! sector formula gives.

use vstd::prelude::*;
use vstd::arithmetic::div_mod::lemma_fundamental_div_mod;
use vstd::arithmetic::div_mod::lemma_mod_multiples_vanish;

verus! {

/// Hue units in one degree.
pub const DEGREE: i128 = 1_000_000_000_000_000;

/// Hue units in one sector of the colour wheel, 60 degrees.
pub const SEXTANT: i128 = 60_000_000_000_000_000;

/// Hue units in the full wheel, 360 degrees.
pub const FULL_TURN: i128 = 360_000_000_000_000_000;

/// The value 1.0 of a saturation, a lightness or an opacity.
pub const ONE: i64 = 1000;

/// The value 1.0 of a channel of the result: `2 * ONE * ONE * SEXTANT`.
pub const CHANNEL_ONE: u128 = 120_000_000_000_000_000_000_000;

/// A colour with opacity. Each channel is a numerator over `CHANNEL_ONE`.
#[derive(Clone, Copy, Debug, PartialEq, Eq, Structural)]
pub struct Rgba {
    pub red: u128,
    pub green: u128,
    pub blue: u128,
    pub alpha: u128,
}

impl View for Rgba {
    type V = (int, int, int, int);

    open spec fn view(&self) -> (int, int, int, int) {
        (self.red as int, self.green as int, self.blue as int, self.alpha as int)
    }
}

impl Rgba {
    /// The colour whose channels are the given numerators, each of which
    /// lies in `[0, CHANNEL_ONE]`.
    pub open spec fn exact(channels: (int, int, int, int)) -> Rgba {
        Rgba {
            red: channels.0 as u128,
            green: channels.1 as u128,
            blue: channels.2 as u128,
            alpha: channels.3 as u128,
        }
    }
}

/// The hue brought into `[0, FULL_TURN)`; negative hues wrap upwards.
pub open spec fn wrap(hue: int) -> int {
    hue % (FULL_TURN as int)
}

/// A saturation, lightness or opacity brought into `[0, ONE]`.
pub open spec fn clamp(value: int) -> int {
    if value < 0 {
        0
    } else if value > ONE {
        ONE as int
    } else {
        value
    }
}

pub open spec fn distance(a: int, b: int) -> int {
    if a < b {
        b - a
    } else {
        a - b
    }
}

/// Chroma `(1 - |2 l - 1|) s`, as a numerator over `ONE * ONE`.
pub open spec fn chroma(saturation: int, lightness: int) -> int {
    (ONE - distance(2 * lightness, ONE as int)) * saturation
}

/// The factor `1 - |((h / 60) mod 2) - 1|`, as a numerator over `SEXTANT`.
pub open spec fn ramp(hue: int) -> int {
    SEXTANT - distance(hue % (2 * SEXTANT), SEXTANT as int)
}

/// The offset `l - c / 2` that matches the lightness, as a numerator over
/// `2 * ONE * ONE`.
pub open spec fn offset(saturation: int, lightness: int) -> int {
    2 * lightness * ONE - chroma(saturation, lightness)
}

/// The sector of the wheel that a hue lies in: `floor(h / 60) mod 6`.
pub open spec fn sector(hue: int) -> int {
    (hue / (SEXTANT as int)) % 6
}

/// The channel that carries the chroma: `c + m`, over `CHANNEL_ONE`.
pub open spec fn strong(saturation: int, lightness: int) -> int {
    (2 * chroma(saturation, lightness) + offset(saturation, lightness)) * SEXTANT
}

/// The channel that carries the intermediate value: `x + m`, over
/// `CHANNEL_ONE`.
pub open spec fn middle(hue: int, saturation: int, lightness: int) -> int {
    2 * (chroma(saturation, lightness) * ramp(hue)) + offset(saturation, lightness) * SEXTANT
}

/// The channel that carries nothing but the offset: `0 + m`, over
/// `CHANNEL_ONE`.
pub open spec fn weak(saturation: int, lightness: int) -> int {
    offset(saturation, lightness) * SEXTANT
}

/// The six-sector permutation of the three channel values.
pub open spec fn arrange(sector: int, strong: int, middle: int, weak: int) -> (int, int, int) {
    if sector == 0 {
        (strong, middle, weak)
    } else if sector == 1 {
        (middle, strong, weak)
    } else if sector == 2 {
        (weak, strong, middle)
    } else if sector == 3 {
        (weak, middle, strong)
    } else if sector == 4 {
        (middle, weak, strong)
    } else {
        (strong, weak, middle)
    }
}

/// An opacity in `[0, ONE]` as a numerator over `CHANNEL_ONE`.
pub open spec fn opacity(alpha: int) -> int {
    alpha * (2 * ONE * SEXTANT)
}

/// The colour of a hue, saturation, lightness and opacity: the hue wraps
/// into the wheel, the other three are clamped, and the sector of the hue
/// picks the permutation.
pub open spec fn rgba(hue: int, saturation: int, lightness: int, alpha: int) -> (
    int,
    int,
    int,
    int,
) {
    let h = wrap(hue);
    let s = clamp(saturation);
    let l = clamp(lightness);
    let (red, green, blue) = arrange(sector(h), strong(s, l), middle(h, s, l), weak(s, l));
    (red, green, blue, opacity(clamp(alpha)))
}

/// Bounds of the three channel values for clamped inputs: each lies in
/// `[0, CHANNEL_ONE]`, and the chroma in `[0, ONE * ONE]`.
pub proof fn lemma_channel_bounds(hue: int, saturation: int, lightness: int)
    requires
        0 <= hue < FULL_TURN,
        0 <= saturation <= ONE,
        0 <= lightness <= ONE,
    ensures
        0 <= chroma(saturation, lightness) <= ONE * ONE,
        0 <= ramp(hue) <= SEXTANT,
        0 <= offset(saturation, lightness) <= 2 * ONE * ONE,
        0 <= 2 * chroma(saturation, lightness) + offset(saturation, lightness) <= 2 * ONE * ONE,
        0 <= chroma(saturation, lightness) * ramp(hue) <= chroma(saturation, lightness) * SEXTANT,
        0 <= weak(saturation, lightness) <= middle(hue, saturation, lightness),
        middle(hue, saturation, lightness) <= strong(saturation, lightness),
        strong(saturation, lightness) <= CHANNEL_ONE,
{
    let width = ONE - distance(2 * lightness, ONE as int);
    let c = chroma(saturation, lightness);
    let r = ramp(hue);
    let m = offset(saturation, lightness);
    assert(0 <= width <= ONE);
    assert(width <= 2 * lightness && width <= 2 * (ONE - lightness));
    assert(0 <= c <= width * ONE && c == width * saturation) by (nonlinear_arith)
        requires
            0 <= width,
            0 <= saturation <= ONE,
            c == width * saturation,
    ;
    assert(width * ONE <= ONE * ONE && width * ONE <= 2 * lightness * ONE && width * ONE <= 2 * (
    ONE - lightness) * ONE) by (nonlinear_arith)
        requires
            0 <= width <= ONE,
            width <= 2 * lightness,
            width <= 2 * (ONE - lightness),
    ;
    assert(2 * (ONE - lightness) * ONE == 2 * ONE * ONE - 2 * lightness * ONE)
        by (nonlinear_arith);
    assert(0 <= r <= SEXTANT);
    assert(0 <= c * r <= c * SEXTANT) by (nonlinear_arith)
        requires
            0 <= c,
            0 <= r <= SEXTANT,
    ;
    assert(0 <= m * SEXTANT) by (nonlinear_arith)
        requires
            0 <= m,
    ;
    assert((2 * c + m) * SEXTANT == 2 * (c * SEXTANT) + m * SEXTANT) by (nonlinear_arith);
    assert((2 * c + m) * SEXTANT <= (2 * ONE * ONE) * SEXTANT) by (nonlinear_arith)
        requires
            2 * c + m <= 2 * ONE * ONE,
    ;
}

/// The colour is periodic in the hue with the period of the full wheel:
/// adding any whole number of turns, forwards or backwards, changes nothing.
pub proof fn law_hue_is_periodic(hue: int, turns: int, saturation: int, lightness: int, alpha: int)
    ensures
        rgba(hue + turns * FULL_TURN, saturation, lightness, alpha) == rgba(
            hue,
            saturation,
            lightness,
            alpha,
        ),
{
    lemma_mod_multiples_vanish(turns, hue, FULL_TURN as int);
    assert(FULL_TURN * turns + hue == hue + turns * FULL_TURN) by (nonlinear_arith);
}

/// On each of the seven sector boundaries from 0 to 360 degrees the hue lies
/// in the sector that begins there, the intermediate value has reached the
/// end of its ramp, and the formula of the sector that ends there gives the
/// same colour: the conversion has no jump at a boundary.
pub proof fn law_sector_boundaries_agree(
    boundary: int,
    saturation: int,
    lightness: int,
    alpha: int,
)
    requires
        0 <= boundary <= 6,
    ensures
        ({
            let h = wrap(boundary * SEXTANT);
            let s = clamp(saturation);
            let l = clamp(lightness);
            let color = rgba(boundary * SEXTANT, saturation, lightness, alpha);
            &&& sector(h) == boundary % 6
            &&& ramp(h) == if boundary % 2 == 0 {
                0
            } else {
                SEXTANT as int
            }
            &&& middle(h, s, l) == if boundary % 2 == 0 {
                weak(s, l)
            } else {
                strong(s, l)
            }
            &&& (color.0, color.1, color.2) == arrange(
                (boundary + 5) % 6,
                strong(s, l),
                middle(h, s, l),
                weak(s, l),
            )
        }),
{
    let s = clamp(saturation);
    let l = clamp(lightness);
    let c = chroma(s, l);
    let h = wrap(boundary * SEXTANT);
    let turned: int = if boundary == 6 {
        0
    } else {
        boundary
    };
    assert(h == turned * SEXTANT);
    assert(h / (SEXTANT as int) == turned && h % (2 * SEXTANT) == (turned % 2) * SEXTANT) by {
        if turned == 0 {
            assert(h == 0);
        } else if turned == 1 {
            assert(h == 60_000_000_000_000_000);
        } else if turned == 2 {
            assert(h == 120_000_000_000_000_000);
        } else if turned == 3 {
            assert(h == 180_000_000_000_000_000);
        } else if turned == 4 {
            assert(h == 240_000_000_000_000_000);
        } else {
            assert(h == 300_000_000_000_000_000);
        }
    }
    assert(sector(h) == boundary % 6);
    assert(ramp(h) == if boundary % 2 == 0 {
        0
    } else {
        SEXTANT as int
    });
    assert(c * 0 == 0) by (nonlinear_arith);
    assert((2 * c + offset(s, l)) * SEXTANT == 2 * (c * SEXTANT) + offset(s, l) * SEXTANT)
        by (nonlinear_arith);
}

/// With no saturation the colour is the gray of the lightness, whatever the
/// hue, and the opacity passes through.
pub proof fn law_zero_saturation_is_gray(hue: int, lightness: int, alpha: int)
    ensures
        rgba(hue, 0, lightness, alpha) == (
            opacity(clamp(lightness)),
            opacity(clamp(lightness)),
            opacity(clamp(lightness)),
            opacity(clamp(alpha)),
        ),
{
    let l = clamp(lightness);
    let h = wrap(hue);
    let width = ONE - distance(2 * l, ONE as int);
    assert(width * 0 == 0) by (nonlinear_arith);
    assert(0 * ramp(h) == 0) by (nonlinear_arith);
    assert((2 * l * ONE) * SEXTANT == l * (2 * ONE * SEXTANT)) by (nonlinear_arith);
}

/// With no lightness the colour is black, and with full lightness it is
/// white, whatever the hue and the saturation; the opacity passes through.
pub proof fn law_lightness_extremes(hue: int, saturation: int, alpha: int)
    ensures
        rgba(hue, saturation, 0, alpha) == (0int, 0int, 0int, opacity(clamp(alpha))),
        rgba(hue, saturation, ONE as int, alpha) == (
            CHANNEL_ONE as int,
            CHANNEL_ONE as int,
            CHANNEL_ONE as int,
            opacity(clamp(alpha)),
        ),
{
    let s = clamp(saturation);
    let h = wrap(hue);
    assert(0 * s == 0) by (nonlinear_arith);
    assert(0 * ramp(h) == 0) by (nonlinear_arith);
    assert(chroma(s, 0) == 0);
    assert(chroma(s, ONE as int) == 0);
}

/// Saturation, lightness and opacity outside `[0, ONE]` count as the nearest
/// bound.
pub proof fn law_inputs_are_clamped(hue: int, saturation: int, lightness: int, alpha: int)
    ensures
        rgba(hue, saturation, lightness, alpha) == rgba(
            hue,
            clamp(saturation),
            clamp(lightness),
            clamp(alpha),
        ),
{
}

/// Every channel of every colour lies between 0 and `CHANNEL_ONE`.
pub proof fn law_channels_are_fractions(hue: int, saturation: int, lightness: int, alpha: int)
    ensures
        ({
            let color = rgba(hue, saturation, lightness, alpha);
            &&& 0 <= color.0 <= CHANNEL_ONE
            &&& 0 <= color.1 <= CHANNEL_ONE
            &&& 0 <= color.2 <= CHANNEL_ONE
            &&& 0 <= color.3 <= CHANNEL_ONE
        }),
{
    let a = clamp(alpha);
    lemma_channel_bounds(wrap(hue), clamp(saturation), clamp(lightness));
    assert(0 <= a * (2 * ONE * SEXTANT) <= CHANNEL_ONE) by (nonlinear_arith)
        requires
            0 <= a <= 1000,
            ONE == 1000,
            SEXTANT == 60_000_000_000_000_000,
            CHANNEL_ONE == 120_000_000_000_000_000_000_000,
    ;
}

fn clamp_unit(value: i64) -> (clamped: u128)
    ensures
        clamped == clamp(value as int),
{
    if value < 0 {
        0
    } else if value > ONE {
        ONE as u128
    } else {
        value as u128
    }
}

fn wrap_hue(hue: i128) -> (wrapped: u128)
    ensures
        wrapped == wrap(hue as int),
{
    let remainder: i128 = hue % FULL_TURN;
    if remainder < 0 {
        (remainder + FULL_TURN) as u128
    } else {
        remainder as u128
    }
}

/// Converts a hue (in units of `1 / DEGREE` degrees), a saturation, a
/// lightness and an opacity (in units of `1 / ONE`) into red, green, blue and
/// opacity, each a numerator over `CHANNEL_ONE`.
///
/// The hue is taken modulo the full wheel, in both directions. Saturation,
/// lightness and opacity are clamped into `[0, ONE]`. The sector is the whole
/// number of sextants in the wrapped hue, so a hue on a sector boundary
/// belongs to the sector that begins there.
pub fn hsla_to_rgba(hue: i128, saturation: i64, lightness: i64, alpha: i64) -> (color: Rgba)
    ensures
        color@ == rgba(hue as int, saturation as int, lightness as int, alpha as int),
        color == Rgba::exact(rgba(hue as int, saturation as int, lightness as int, alpha as int)),
        color.red <= CHANNEL_ONE,
        color.green <= CHANNEL_ONE,
        color.blue <= CHANNEL_ONE,
        color.alpha <= CHANNEL_ONE,
{
    let h: u128 = wrap_hue(hue);
    let s: u128 = clamp_unit(saturation);
    let l: u128 = clamp_unit(lightness);
    let a: u128 = clamp_unit(alpha);
    let one: u128 = ONE as u128;
    let sextant: u128 = SEXTANT as u128;
    proof {
        lemma_channel_bounds(h as int, s as int, l as int);
        lemma_fundamental_div_mod(h as int, SEXTANT as int);
    }
    let width: u128 = if 2 * l < one {
        2 * l
    } else {
        2 * one - 2 * l
    };
    assert(width == ONE - distance(2 * l, ONE as int));
    assert(width * s == chroma(s as int, l as int));
    let c: u128 = width * s;
    let position: u128 = h % (2 * sextant);
    let r: u128 = if position < sextant {
        position
    } else {
        2 * sextant - position
    };
    assert(r == ramp(h as int));
    assert(2 * l * one == 2 * l * ONE) by (nonlinear_arith)
        requires
            one == ONE,
    ;
    let m: u128 = 2 * l * one - c;
    let weak: u128 = m * sextant;
    let middle: u128 = 2 * (c * r) + weak;
    let strong: u128 = (2 * c + m) * sextant;
    assert(a * (2 * one * sextant) <= CHANNEL_ONE) by (nonlinear_arith)
        requires
            a <= 1000,
            one == 1000,
            sextant == 60_000_000_000_000_000,
    ;
    let opacity: u128 = a * (2 * one * sextant);
    let index: u128 = h / sextant;
    assert(index == sector(h as int));
    if index == 0 {
        Rgba { red: strong, green: middle, blue: weak, alpha: opacity }
    } else if index == 1 {
        Rgba { red: middle, green: strong, blue: weak, alpha: opacity }
    } else if index == 2 {
        Rgba { red: weak, green: strong, blue: middle, alpha: opacity }
    } else if index == 3 {
        Rgba { red: weak, green: middle, blue: strong, alpha: opacity }
    } else if index == 4 {
        Rgba { red: middle, green: weak, blue: strong, alpha: opacity }
    } else {
        Rgba { red: strong, green: weak, blue: middle, alpha: opacity }
    }
}

} // verus!
