//! Animatable style values: colors, style modifiers, and theme items.
//!
//! A color channel is a `u8`; for blending it is read as the fraction
//! `channel / 255` on the fixed-point grid.  Channel interpolation rounds
//! the step toward zero, so blending 255 toward 0 at the half-way fraction
//! gives 128, and 0 toward 255 gives 127.  Optional sub-values pad their
//! component run with no-op deltas and zero distances when absent, so the
//! component count of a style is a type-level constant.

use vstd::prelude::*;
use crate::animate::{lemma_lerp_int_bounds, lerp_int, Animate, SCALE};

verus! {

/// The normalized, signed distance from channel `a` to channel `b`:
/// `(a - b) / 255` on the fixed-point grid, rounded toward zero.
pub open spec fn channel_dist(a: int, b: int) -> int {
    if a >= b {
        ((a - b) * SCALE) / 255
    } else {
        -(((b - a) * SCALE) / 255)
    }
}

/// The channel that results from moving `c` by the normalized delta `d`:
/// the channel's fraction is shifted by `d / SCALE`, clamped into `[0, 1]`,
/// and scaled back to `[0, 255]`, rounding to the nearest channel on the
/// way back so that a zero delta leaves the channel unchanged.
pub open spec fn channel_apply(c: int, d: int) -> int {
    let s = SCALE as int;
    let norm = (c * s) / 255;
    let moved = if norm + d < 0 {
        0
    } else if norm + d > s {
        s
    } else {
        norm + d
    };
    (moved * 255 + s / 2) / s
}

/// Channel interpolation, executable form of [`lerp_int`] on `[0, 255]`.
fn lerp_channel(a: u8, b: u8, f: u64) -> (r: u8)
    requires
        f <= SCALE,
    ensures
        r as int == lerp_int(a as int, b as int, f as int),
{
    proof {
        lemma_lerp_int_bounds(a as int, b as int, f as int);
    }
    if b >= a {
        let diff: u64 = (b - a) as u64;
        let step: u64 = diff * f / SCALE;
        a + (step as u8)
    } else {
        let diff: u64 = (a - b) as u64;
        let step: u64 = diff * f / SCALE;
        a - (step as u8)
    }
}

/// Channel distance, executable form of [`channel_dist`].
fn channel_dist_exec(a: u8, b: u8) -> (r: i64)
    ensures
        r as int == channel_dist(a as int, b as int),
        -1_000_000 <= r <= 1_000_000,
{
    if a >= b {
        let v: u64 = ((a - b) as u64) * SCALE / 255;
        proof {
            assert(((a - b) as int * 1_000_000) / 255 <= 1_000_000) by (nonlinear_arith)
                requires
                    0 <= (a - b) as int <= 255;
        }
        v as i64
    } else {
        let v: u64 = ((b - a) as u64) * SCALE / 255;
        proof {
            assert(((b - a) as int * 1_000_000) / 255 <= 1_000_000) by (nonlinear_arith)
                requires
                    0 <= (b - a) as int <= 255;
        }
        -(v as i64)
    }
}

/// Channel delta application, executable form of [`channel_apply`].
fn channel_apply_exec(c: u8, d: i64) -> (r: u8)
    ensures
        r as int == channel_apply(c as int, d as int),
{
    let norm: i64 = ((c as u64) * SCALE / 255) as i64;
    proof {
        assert(((c as int) * 1_000_000) / 255 <= 1_000_000) by (nonlinear_arith)
            requires
                0 <= c as int <= 255;
    }
    let moved: i64 = if d >= (SCALE as i64) {
        SCALE as i64
    } else if d <= -norm {
        0
    } else {
        let m: i64 = norm + d;
        if m > (SCALE as i64) {
            SCALE as i64
        } else {
            m
        }
    };
    proof {
        assert(0 <= ((moved as int) * 255 + 500_000) / 1_000_000 <= 255) by (nonlinear_arith)
            requires
                0 <= moved as int <= 1_000_000;
    }
    (((moved as u64) * 255 + SCALE / 2) / SCALE) as u8
}

impl Animate for u8 {
    open spec fn components_spec() -> nat {
        1
    }

    open spec fn wf(self) -> bool {
        true
    }

    open spec fn lerp_spec(start: Self, end: Self, f: int) -> Self {
        lerp_int(start as int, end as int, f) as u8
    }

    open spec fn distance_spec(start: Self, end: Self) -> Seq<i64> {
        seq![channel_dist(start as int, end as int) as i64]
    }

    open spec fn apply_spec(start: Self, deltas: Seq<i64>) -> Self {
        channel_apply(start as int, deltas[0] as int) as u8
    }

    proof fn lemma_components_pos() {
    }

    proof fn lemma_lerp_identity(x: Self, f: int) {
        lemma_lerp_int_bounds(x as int, x as int, f);
    }

    proof fn lemma_lerp_zero(a: Self, b: Self) {
        lemma_lerp_int_bounds(a as int, b as int, 0);
    }

    proof fn lemma_lerp_one(a: Self, b: Self) {
        lemma_lerp_int_bounds(a as int, b as int, SCALE as int);
    }

    proof fn lemma_lerp_wf(a: Self, b: Self, f: int) {
    }

    proof fn lemma_distance_len(a: Self, b: Self) {
    }

    proof fn lemma_distance_self_zero(x: Self) {
        assert(Self::distance_spec(x, x) =~= Seq::new(1, |i: int| 0i64));
    }

    fn components() -> (r: usize) {
        1
    }

    fn clone_value(&self) -> (r: Self) {
        *self
    }

    fn eq_value(&self, other: &Self) -> (r: bool) {
        *self == *other
    }

    fn lerp(&mut self, start: &Self, end: &Self, f: u64) {
        *self = lerp_channel(*start, *end, f);
    }

    fn distance_to(&self, end: &Self) -> (r: Vec<i64>) {
        let mut v: Vec<i64> = Vec::new();
        v.push(channel_dist_exec(*self, *end));
        proof {
            assert(v@ =~= Self::distance_spec(*self, *end));
        }
        v
    }

    fn apply_deltas(&mut self, deltas: &Vec<i64>, cursor: &mut usize) {
        let n: usize = deltas.len();
        let c: usize = *cursor;
        *self = channel_apply_exec(*self, deltas[c]);
        proof {
            assert(deltas@.subrange(c as int, c + 1)[0] == deltas@[c as int]);
        }
        *cursor = c + 1;
    }
}

/// An RGBA color with one byte per channel.
#[derive(Clone, Copy, Debug, PartialEq, Eq, Structural)]
pub struct Color {
    pub r: u8,
    pub g: u8,
    pub b: u8,
    pub a: u8,
}

impl Animate for Color {
    open spec fn components_spec() -> nat {
        4
    }

    open spec fn wf(self) -> bool {
        true
    }

    open spec fn lerp_spec(start: Self, end: Self, f: int) -> Self {
        Color {
            r: lerp_int(start.r as int, end.r as int, f) as u8,
            g: lerp_int(start.g as int, end.g as int, f) as u8,
            b: lerp_int(start.b as int, end.b as int, f) as u8,
            a: lerp_int(start.a as int, end.a as int, f) as u8,
        }
    }

    open spec fn distance_spec(start: Self, end: Self) -> Seq<i64> {
        seq![
            channel_dist(start.r as int, end.r as int) as i64,
            channel_dist(start.g as int, end.g as int) as i64,
            channel_dist(start.b as int, end.b as int) as i64,
            channel_dist(start.a as int, end.a as int) as i64,
        ]
    }

    open spec fn apply_spec(start: Self, deltas: Seq<i64>) -> Self {
        Color {
            r: channel_apply(start.r as int, deltas[0] as int) as u8,
            g: channel_apply(start.g as int, deltas[1] as int) as u8,
            b: channel_apply(start.b as int, deltas[2] as int) as u8,
            a: channel_apply(start.a as int, deltas[3] as int) as u8,
        }
    }

    proof fn lemma_components_pos() {
    }

    proof fn lemma_lerp_identity(x: Self, f: int) {
        lemma_lerp_int_bounds(x.r as int, x.r as int, f);
        lemma_lerp_int_bounds(x.g as int, x.g as int, f);
        lemma_lerp_int_bounds(x.b as int, x.b as int, f);
        lemma_lerp_int_bounds(x.a as int, x.a as int, f);
    }

    proof fn lemma_lerp_zero(a: Self, b: Self) {
        lemma_lerp_int_bounds(a.r as int, b.r as int, 0);
        lemma_lerp_int_bounds(a.g as int, b.g as int, 0);
        lemma_lerp_int_bounds(a.b as int, b.b as int, 0);
        lemma_lerp_int_bounds(a.a as int, b.a as int, 0);
    }

    proof fn lemma_lerp_one(a: Self, b: Self) {
        lemma_lerp_int_bounds(a.r as int, b.r as int, SCALE as int);
        lemma_lerp_int_bounds(a.g as int, b.g as int, SCALE as int);
        lemma_lerp_int_bounds(a.b as int, b.b as int, SCALE as int);
        lemma_lerp_int_bounds(a.a as int, b.a as int, SCALE as int);
    }

    proof fn lemma_lerp_wf(a: Self, b: Self, f: int) {
    }

    proof fn lemma_distance_len(a: Self, b: Self) {
    }

    proof fn lemma_distance_self_zero(x: Self) {
        assert(Self::distance_spec(x, x) =~= Seq::new(4, |i: int| 0i64));
    }

    fn components() -> (r: usize) {
        4
    }

    fn clone_value(&self) -> (r: Self) {
        *self
    }

    fn eq_value(&self, other: &Self) -> (r: bool) {
        *self == *other
    }

    fn lerp(&mut self, start: &Self, end: &Self, f: u64) {
        self.r = lerp_channel(start.r, end.r, f);
        self.g = lerp_channel(start.g, end.g, f);
        self.b = lerp_channel(start.b, end.b, f);
        self.a = lerp_channel(start.a, end.a, f);
    }

    fn distance_to(&self, end: &Self) -> (r: Vec<i64>) {
        let mut v: Vec<i64> = Vec::new();
        v.push(channel_dist_exec(self.r, end.r));
        v.push(channel_dist_exec(self.g, end.g));
        v.push(channel_dist_exec(self.b, end.b));
        v.push(channel_dist_exec(self.a, end.a));
        proof {
            assert(v@ =~= Self::distance_spec(*self, *end));
        }
        v
    }

    fn apply_deltas(&mut self, deltas: &Vec<i64>, cursor: &mut usize) {
        let n: usize = deltas.len();
        let c: usize = *cursor;
        self.r = channel_apply_exec(self.r, deltas[c]);
        self.g = channel_apply_exec(self.g, deltas[c + 1]);
        self.b = channel_apply_exec(self.b, deltas[c + 2]);
        self.a = channel_apply_exec(self.a, deltas[c + 3]);
        proof {
            let sub = deltas@.subrange(c as int, c + 4);
            assert(sub[0] == deltas@[c as int] && sub[1] == deltas@[c + 1] && sub[2] == deltas@[c
                + 2] && sub[3] == deltas@[c + 3]);
        }
        *cursor = c + 4;
    }
}

/// The blend of two optional colors.  Matching shapes blend componentwise;
/// when exactly one side is absent the start side is kept until the
/// fraction reaches one, at which point the end side is taken.
pub open spec fn opt_lerp(a: Option<Color>, b: Option<Color>, f: int) -> Option<Color> {
    match (a, b) {
        (Some(x), Some(y)) => Some(<Color as Animate>::lerp_spec(x, y, f)),
        (None, None) => None,
        _ => if f == SCALE {
            b
        } else {
            a
        },
    }
}

/// The distance between two optional colors: componentwise when both are
/// present, the zero vector otherwise.
pub open spec fn opt_dist(a: Option<Color>, b: Option<Color>) -> Seq<i64> {
    match (a, b) {
        (Some(x), Some(y)) => <Color as Animate>::distance_spec(x, y),
        _ => Seq::new(4, |i: int| 0i64),
    }
}

/// Applying a delta run to an optional color: a present color consumes its
/// deltas; an absent one treats them as padding and stays absent.
pub open spec fn opt_apply(a: Option<Color>, deltas: Seq<i64>) -> Option<Color> {
    match a {
        Some(x) => Some(<Color as Animate>::apply_spec(x, deltas)),
        None => None,
    }
}

/// A style change: optional foreground and background colors and an
/// optional font-style bit set ([`FONT_BOLD`] and [`FONT_ITALIC`]).  Only
/// the colors are animated; the font style of the start side is kept until
/// the blend reaches the end.
#[derive(Clone, Copy, Debug, PartialEq, Eq, Structural)]
pub struct StyleModifier {
    pub foreground: Option<Color>,
    pub background: Option<Color>,
    pub font_style: Option<u8>,
}

/// Bit set in a font style when the text is bold.
pub const FONT_BOLD: u8 = 1;

/// Bit set in a font style when the text is underlined.  Underlining does
/// not take part in the font choice of a highlight.
pub const FONT_UNDERLINE: u8 = 2;

/// Bit set in a font style when the text is italic.
pub const FONT_ITALIC: u8 = 4;

impl Animate for StyleModifier {
    open spec fn components_spec() -> nat {
        8
    }

    open spec fn wf(self) -> bool {
        true
    }

    open spec fn lerp_spec(start: Self, end: Self, f: int) -> Self {
        StyleModifier {
            foreground: opt_lerp(start.foreground, end.foreground, f),
            background: opt_lerp(start.background, end.background, f),
            font_style: if f == SCALE {
                end.font_style
            } else {
                start.font_style
            },
        }
    }

    open spec fn distance_spec(start: Self, end: Self) -> Seq<i64> {
        opt_dist(start.foreground, end.foreground) + opt_dist(start.background, end.background)
    }

    open spec fn apply_spec(start: Self, deltas: Seq<i64>) -> Self {
        StyleModifier {
            foreground: opt_apply(start.foreground, deltas.subrange(0, 4)),
            background: opt_apply(start.background, deltas.subrange(4, 8)),
            font_style: start.font_style,
        }
    }

    proof fn lemma_components_pos() {
    }

    proof fn lemma_lerp_identity(x: Self, f: int) {
        match x.foreground {
            Some(c) => <Color as Animate>::lemma_lerp_identity(c, f),
            None => (),
        }
        match x.background {
            Some(c) => <Color as Animate>::lemma_lerp_identity(c, f),
            None => (),
        }
    }

    proof fn lemma_lerp_zero(a: Self, b: Self) {
        match (a.foreground, b.foreground) {
            (Some(x), Some(y)) => <Color as Animate>::lemma_lerp_zero(x, y),
            _ => (),
        }
        match (a.background, b.background) {
            (Some(x), Some(y)) => <Color as Animate>::lemma_lerp_zero(x, y),
            _ => (),
        }
    }

    proof fn lemma_lerp_one(a: Self, b: Self) {
        match (a.foreground, b.foreground) {
            (Some(x), Some(y)) => <Color as Animate>::lemma_lerp_one(x, y),
            _ => (),
        }
        match (a.background, b.background) {
            (Some(x), Some(y)) => <Color as Animate>::lemma_lerp_one(x, y),
            _ => (),
        }
    }

    proof fn lemma_lerp_wf(a: Self, b: Self, f: int) {
    }

    proof fn lemma_distance_len(a: Self, b: Self) {
        <Color as Animate>::lemma_components_pos();
        match (a.foreground, b.foreground) {
            (Some(x), Some(y)) => <Color as Animate>::lemma_distance_len(x, y),
            _ => (),
        }
        match (a.background, b.background) {
            (Some(x), Some(y)) => <Color as Animate>::lemma_distance_len(x, y),
            _ => (),
        }
    }

    proof fn lemma_distance_self_zero(x: Self) {
        match x.foreground {
            Some(c) => <Color as Animate>::lemma_distance_self_zero(c),
            None => (),
        }
        match x.background {
            Some(c) => <Color as Animate>::lemma_distance_self_zero(c),
            None => (),
        }
        assert(Self::distance_spec(x, x) =~= Seq::new(8, |i: int| 0i64));
    }

    fn components() -> (r: usize) {
        8
    }

    fn clone_value(&self) -> (r: Self) {
        *self
    }

    fn eq_value(&self, other: &Self) -> (r: bool) {
        *self == *other
    }

    fn lerp(&mut self, start: &Self, end: &Self, f: u64) {
        let fg: Option<Color> = match (start.foreground, end.foreground) {
            (Some(x), Some(y)) => {
                let mut c = x;
                c.lerp(&x, &y, f);
                Some(c)
            },
            (None, None) => None,
            (sx, sy) => if f == SCALE {
                sy
            } else {
                sx
            },
        };
        let bg: Option<Color> = match (start.background, end.background) {
            (Some(x), Some(y)) => {
                let mut c = x;
                c.lerp(&x, &y, f);
                Some(c)
            },
            (None, None) => None,
            (sx, sy) => if f == SCALE {
                sy
            } else {
                sx
            },
        };
        let fs: Option<u8> = if f == SCALE {
            end.font_style
        } else {
            start.font_style
        };
        *self = StyleModifier { foreground: fg, background: bg, font_style: fs };
    }

    fn distance_to(&self, end: &Self) -> (r: Vec<i64>) {
        let mut v: Vec<i64> = Vec::new();
        match (self.foreground, end.foreground) {
            (Some(x), Some(y)) => {
                v.push(channel_dist_exec(x.r, y.r));
                v.push(channel_dist_exec(x.g, y.g));
                v.push(channel_dist_exec(x.b, y.b));
                v.push(channel_dist_exec(x.a, y.a));
            },
            _ => {
                v.push(0);
                v.push(0);
                v.push(0);
                v.push(0);
            },
        }
        proof {
            assert(v@ =~= opt_dist(self.foreground, end.foreground));
        }
        match (self.background, end.background) {
            (Some(x), Some(y)) => {
                v.push(channel_dist_exec(x.r, y.r));
                v.push(channel_dist_exec(x.g, y.g));
                v.push(channel_dist_exec(x.b, y.b));
                v.push(channel_dist_exec(x.a, y.a));
            },
            _ => {
                v.push(0);
                v.push(0);
                v.push(0);
                v.push(0);
            },
        }
        proof {
            assert(v@ =~= Self::distance_spec(*self, *end));
        }
        v
    }

    fn apply_deltas(&mut self, deltas: &Vec<i64>, cursor: &mut usize) {
        let n: usize = deltas.len();
        let c0: usize = *cursor;
        let fg: Option<Color> = match self.foreground {
            Some(mut c) => {
                c.apply_deltas(deltas, cursor);
                Some(c)
            },
            None => {
                *cursor = c0 + 4;
                None
            },
        };
        let bg: Option<Color> = match self.background {
            Some(mut c) => {
                c.apply_deltas(deltas, cursor);
                Some(c)
            },
            None => {
                *cursor = c0 + 8;
                None
            },
        };
        self.foreground = fg;
        self.background = bg;
        proof {
            let sub = deltas@.subrange(c0 as int, c0 + 8);
            assert(sub.subrange(0, 4) =~= deltas@.subrange(c0 as int, c0 + 4));
            assert(sub.subrange(4, 8) =~= deltas@.subrange(c0 + 4, c0 + 8));
        }
    }
}

/// One entry of a theme: the style applied to one scope of a grammar.
#[derive(Clone, Copy, Debug, PartialEq, Eq, Structural)]
pub struct ThemeItem {
    pub style: StyleModifier,
}

impl Animate for ThemeItem {
    open spec fn components_spec() -> nat {
        8
    }

    open spec fn wf(self) -> bool {
        true
    }

    open spec fn lerp_spec(start: Self, end: Self, f: int) -> Self {
        ThemeItem { style: <StyleModifier as Animate>::lerp_spec(start.style, end.style, f) }
    }

    open spec fn distance_spec(start: Self, end: Self) -> Seq<i64> {
        <StyleModifier as Animate>::distance_spec(start.style, end.style)
    }

    open spec fn apply_spec(start: Self, deltas: Seq<i64>) -> Self {
        ThemeItem { style: <StyleModifier as Animate>::apply_spec(start.style, deltas) }
    }

    proof fn lemma_components_pos() {
    }

    proof fn lemma_lerp_identity(x: Self, f: int) {
        <StyleModifier as Animate>::lemma_lerp_identity(x.style, f);
    }

    proof fn lemma_lerp_zero(a: Self, b: Self) {
        <StyleModifier as Animate>::lemma_lerp_zero(a.style, b.style);
    }

    proof fn lemma_lerp_one(a: Self, b: Self) {
        <StyleModifier as Animate>::lemma_lerp_one(a.style, b.style);
    }

    proof fn lemma_lerp_wf(a: Self, b: Self, f: int) {
    }

    proof fn lemma_distance_len(a: Self, b: Self) {
        <StyleModifier as Animate>::lemma_distance_len(a.style, b.style);
    }

    proof fn lemma_distance_self_zero(x: Self) {
        <StyleModifier as Animate>::lemma_distance_self_zero(x.style);
    }

    fn components() -> (r: usize) {
        8
    }

    fn clone_value(&self) -> (r: Self) {
        *self
    }

    fn eq_value(&self, other: &Self) -> (r: bool) {
        *self == *other
    }

    fn lerp(&mut self, start: &Self, end: &Self, f: u64) {
        self.style.lerp(&start.style, &end.style, f);
    }

    fn distance_to(&self, end: &Self) -> (r: Vec<i64>) {
        self.style.distance_to(&end.style)
    }

    fn apply_deltas(&mut self, deltas: &Vec<i64>, cursor: &mut usize) {
        self.style.apply_deltas(deltas, cursor);
    }
}

} // verus!
