//! The colour cycle of the on-board RGB LED: the hue steps once per pass of the main
//! loop, and each colour is gamma corrected and dimmed before it is sent to the LED.

use vstd::prelude::*;

verus! {

/// A colour on three 8-bit channels.
#[derive(Clone, Copy, Debug, PartialEq, Eq, Structural)]
pub struct Rgb {
    pub r: u8,
    pub g: u8,
    pub b: u8,
}

/// A colour as hue, saturation and value, each on 8 bits.
#[derive(Clone, Copy, Debug, PartialEq, Eq, Structural)]
pub struct HsvColor {
    pub hue: u8,
    pub sat: u8,
    pub val: u8,
}

/// What `smart_leds::hsv::hsv2rgb` returns for a colour, as `(r, g, b)`.
pub uninterp spec fn hsv2rgb_result(hue: u8, sat: u8, val: u8) -> (u8, u8, u8);

/// What `smart_leds::gamma` yields for one pixel, as `(r, g, b)`.
pub uninterp spec fn gamma_result(r: u8, g: u8, b: u8) -> (u8, u8, u8);

pub open spec fn rgb_of(c: (u8, u8, u8)) -> Rgb {
    Rgb { r: c.0, g: c.1, b: c.2 }
}

/// One channel scaled by `level`: out of 256 steps, `level + 1` are kept.
pub open spec fn scaled(x: u8, level: u8) -> u8 {
    (x * (level + 1) / 256) as u8
}

/// The colour of `color` converted to RGB.
pub open spec fn rgb_of_hsv(color: HsvColor) -> Rgb {
    rgb_of(hsv2rgb_result(color.hue, color.sat, color.val))
}

/// The pixel sent to the LED for `data`: gamma corrected, then dimmed to level 10.
pub open spec fn led_pixel(data: Rgb) -> Rgb {
    let g = rgb_of(gamma_result(data.r, data.g, data.b));
    Rgb { r: scaled(g.r, 10), g: scaled(g.g, 10), b: scaled(g.b, 10) }
}

/// The law of the LED pixel: each channel is the gamma-corrected channel dimmed to
/// brightness 10, i.e. scaled by 11/256; so no channel sent to the LED exceeds 10.
pub proof fn lemma_led_pixel_dimmed(data: Rgb)
    ensures
        led_pixel(data).r == gamma_result(data.r, data.g, data.b).0 * 11 / 256,
        led_pixel(data).g == gamma_result(data.r, data.g, data.b).1 * 11 / 256,
        led_pixel(data).b == gamma_result(data.r, data.g, data.b).2 * 11 / 256,
        led_pixel(data).r <= 10,
        led_pixel(data).g <= 10,
        led_pixel(data).b <= 10,
{
    let g = gamma_result(data.r, data.g, data.b);
    assert(g.0 * 11 / 256 <= 10);
    assert(g.1 * 11 / 256 <= 10);
    assert(g.2 * 11 / 256 <= 10);
}

/// `smart_leds::hsv::hsv2rgb` on the colour. The result is named, not stated.
#[verifier::external_body]
fn hsv2rgb(hue: u8, sat: u8, val: u8) -> (rgb: Rgb)
    ensures
        rgb == rgb_of(hsv2rgb_result(hue, sat, val)),
{
    let c = smart_leds::hsv::hsv2rgb(smart_leds::hsv::Hsv { hue, sat, val });
    Rgb { r: c.r, g: c.g, b: c.b }
}

/// `smart_leds::gamma` over the one pixel: its table lookup per channel. The result is
/// named, not stated.
#[verifier::external_body]
fn gamma(pixel: Rgb) -> (out: Rgb)
    ensures
        out == rgb_of(gamma_result(pixel.r, pixel.g, pixel.b)),
{
    let input = smart_leds::RGB8 { r: pixel.r, g: pixel.g, b: pixel.b };
    let c = smart_leds::gamma(core::iter::once(input)).next().unwrap();
    Rgb { r: c.r, g: c.g, b: c.b }
}

/// `smart_leds::brightness` over the one pixel: each channel becomes
/// `x * (level + 1) / 256`, computed on 16 bits (which cannot overflow).
#[verifier::external_body]
fn brightness(pixel: Rgb, level: u8) -> (out: Rgb)
    ensures
        out.r == scaled(pixel.r, level),
        out.g == scaled(pixel.g, level),
        out.b == scaled(pixel.b, level),
{
    let input = smart_leds::RGB8 { r: pixel.r, g: pixel.g, b: pixel.b };
    let c = smart_leds::brightness(core::iter::once(input), level).next().unwrap();
    Rgb { r: c.r, g: c.g, b: c.b }
}

/// The next hue of the cycle: one step up, wrapping from 255 to 0.
pub open spec fn next_hue(hue: u8) -> u8 {
    if hue == 255 {
        0
    } else {
        (hue + 1) as u8
    }
}

/// The hue after `n` steps.
pub open spec fn hue_after(hue: u8, n: nat) -> u8
    decreases n,
{
    if n == 0 {
        hue
    } else {
        next_hue(hue_after(hue, (n - 1) as nat))
    }
}

/// The law of the colour cycle: after `n` steps the hue has advanced by `n` modulo 256,
/// so every hue comes round and the cycle repeats every 256 steps.
pub proof fn lemma_hue_cycle(hue: u8, n: nat)
    ensures
        hue_after(hue, n) == (hue + n) % 256,
        hue_after(hue, 256) == hue,
{
    lemma_hue_cycle_exact(hue, n);
    lemma_hue_cycle_exact(hue, 256);
}

proof fn lemma_hue_cycle_exact(hue: u8, n: nat)
    ensures
        hue_after(hue, n) == (hue + n) % 256,
    decreases n,
{
    if n > 0 {
        lemma_hue_cycle_exact(hue, (n - 1) as nat);
    }
}

/// One step of the colour cycle: convert the current colour, then step the hue.
pub open spec fn color_step(st: ColorState) -> ColorState {
    ColorState {
        data: rgb_of_hsv(st.current_color),
        current_color: HsvColor { hue: next_hue(st.current_color.hue), ..st.current_color },
    }
}

/// The state after `n` steps of the colour cycle.
pub open spec fn color_steps(st: ColorState, n: nat) -> ColorState
    decreases n,
{
    if n == 0 {
        st
    } else {
        color_step(color_steps(st, (n - 1) as nat))
    }
}

/// The law of the rainbow: after `n` steps the next colour has hue `hue + n` (mod 256),
/// with saturation and value unchanged, and the colour converted last is that of hue
/// `hue + n - 1`; so the steps go through every hue once, in order, and after 256 steps
/// the cycle is back where it started.
pub proof fn lemma_color_cycle(st: ColorState, n: nat)
    ensures
        color_steps(st, n).current_color == (HsvColor {
            hue: ((st.current_color.hue + n) % 256) as u8,
            ..st.current_color
        }),
        n > 0 ==> ({
            let d = color_steps(st, n).data;
            (d.r, d.g, d.b) == hsv2rgb_result(
                ((st.current_color.hue + n - 1) % 256) as u8,
                st.current_color.sat,
                st.current_color.val,
            )
        }),
        color_steps(st, 256).current_color == st.current_color,
    decreases n,
{
    if n > 0 {
        lemma_color_cycle(st, (n - 1) as nat);
    }
    lemma_color_cycle_current(st, 256);
}

proof fn lemma_color_cycle_current(st: ColorState, n: nat)
    ensures
        color_steps(st, n).current_color == (HsvColor {
            hue: ((st.current_color.hue + n) % 256) as u8,
            ..st.current_color
        }),
    decreases n,
{
    if n > 0 {
        lemma_color_cycle_current(st, (n - 1) as nat);
    }
}

/// What a `ColorControl` holds: the colour last converted, and the next one.
#[derive(Clone, Copy, Debug, PartialEq, Eq, Structural)]
pub struct ColorState {
    pub data: Rgb,
    pub current_color: HsvColor,
}

pub struct ColorControl {
    data: Rgb,
    current_color: HsvColor,
}

impl View for ColorControl {
    type V = ColorState;

    closed spec fn view(&self) -> ColorState {
        ColorState { data: self.data, current_color: self.current_color }
    }
}

impl ColorControl {
    /// Start on green; the cycle then starts from red (hue 0).
    pub fn new() -> (r: Self)
        ensures
            r@.data == rgb_of_hsv(HsvColor { hue: 64, sat: 255, val: 255 }),
            (r@.data.r, r@.data.g, r@.data.b) == hsv2rgb_result(64, 255, 255),
            r@.current_color == (HsvColor { hue: 0, sat: 255, val: 255 }),
    {
        // Initialize color to green
        let color = HsvColor { hue: 64, sat: 255, val: 255 };
        let data = hsv2rgb(color.hue, color.sat, color.val);
        ColorControl { data, current_color: HsvColor { hue: 0, ..color } }
    }

    /// The pixel to send to the LED for the colour last converted: gamma corrected, then
    /// limited to brightness 10 out of 255 so that it is not too bright.
    pub fn frame(&self) -> (pixel: Rgb)
        ensures
            pixel == led_pixel(self@.data),
            pixel.r == gamma_result(self@.data.r, self@.data.g, self@.data.b).0 * 11 / 256,
            pixel.g == gamma_result(self@.data.r, self@.data.g, self@.data.b).1 * 11 / 256,
            pixel.b == gamma_result(self@.data.r, self@.data.g, self@.data.b).2 * 11 / 256,
            pixel.r <= 10 && pixel.g <= 10 && pixel.b <= 10,
    {
        proof {
            lemma_led_pixel_dimmed(self@.data);
        }
        brightness(gamma(self.data), 10)
    }

    /// Convert the current colour and step the hue: for hue in 0..=255, round and round.
    pub fn next(&mut self)
        ensures
            final(self)@ == color_step(old(self)@),
            final(self)@.data == rgb_of_hsv(old(self)@.current_color),
            (final(self)@.data.r, final(self)@.data.g, final(self)@.data.b) == hsv2rgb_result(
                old(self)@.current_color.hue,
                old(self)@.current_color.sat,
                old(self)@.current_color.val,
            ),
            final(self)@.current_color == (HsvColor {
                hue: next_hue(old(self)@.current_color.hue),
                ..old(self)@.current_color
            }),
    {
        let color = self.current_color;
        self.data = hsv2rgb(color.hue, color.sat, color.val);
        // Rotate colors
        let hue: u8 = if color.hue == 255 {
            0
        } else {
            color.hue + 1
        };
        self.current_color = HsvColor { hue, ..color };
    }
}

} // verus!
