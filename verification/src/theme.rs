//! Animatable themes: a theme is a list of scope styles.
//!
//! The component count of a theme is a type-level constant,
//! [`THEME_CAP`] entries of eight components each, independent of how many
//! entries a particular theme holds: shorter themes pad the remainder with
//! zero distances and no-op deltas, and entries beyond the cap are carried
//! along unchanged.  Distances between themes of different lengths compare
//! only the overlapping prefix and zero-pad the rest.  This fixed policy
//! is what lets the widget adapter treat a theme as an opaque animatable
//! value.  A theme's entry list is unbounded, so its operations are stated
//! over the entry sequence it holds rather than over whole values.

use vstd::prelude::*;
use crate::animate::{Animate, SCALE};
use crate::style::{Color, StyleModifier, ThemeItem};

verus! {

/// How many theme entries participate in animation.
pub const THEME_CAP: usize = 150;

/// The fixed component count of a theme: `THEME_CAP` entries of eight
/// components each.
pub const THEME_COMPONENTS: usize = 1200;

/// The animatable content of a theme: its name, and one style per scope
/// entry.  The name rides along unchanged; only the styles animate.
#[derive(Debug, Clone)]
pub struct ThemeData {
    pub name: Option<String>,
    pub items: Vec<ThemeItem>,
}

/// A theme's name as plain characters.
pub open spec fn name_view(d: ThemeData) -> Option<Seq<char>> {
    match d.name {
        Some(s) => Some(s@),
        None => None,
    }
}

/// Whether two themes hold the same name and the same entries.
pub open spec fn same_data(a: ThemeData, b: ThemeData) -> bool {
    a.items@ == b.items@ && name_view(a) == name_view(b)
}

/// The pairwise blend of two entry lists: the overlapping prefix blends
/// entry by entry, entries of the start beyond the end's length stay at
/// their start value.
pub open spec fn lerp_items(a: Seq<ThemeItem>, b: Seq<ThemeItem>, f: int) -> Seq<ThemeItem> {
    Seq::new(
        a.len(),
        |i: int|
            if i < b.len() {
                <ThemeItem as Animate>::lerp_spec(a[i], b[i], f)
            } else {
                a[i]
            },
    )
}

/// The entry list after consuming one full run of theme deltas: the first
/// `THEME_CAP` entries each consume their eight deltas, entries beyond the
/// cap are unchanged.
pub open spec fn apply_items(a: Seq<ThemeItem>, deltas: Seq<i64>) -> Seq<ThemeItem> {
    Seq::new(
        a.len(),
        |k: int|
            if k < THEME_CAP {
                <ThemeItem as Animate>::apply_spec(a[k], deltas.subrange(8 * k, 8 * k + 8))
            } else {
                a[k]
            },
    )
}

/// One entry of the fixed-length theme distance vector: pairwise over the
/// overlapping prefix, zero beyond it.
pub open spec fn theme_dist_at(a: Seq<ThemeItem>, b: Seq<ThemeItem>, i: int) -> i64 {
    let k = i / 8;
    if k < a.len() && k < b.len() {
        <ThemeItem as Animate>::distance_spec(a[k], b[k])[i % 8]
    } else {
        0i64
    }
}

/// The fixed-length distance vector between two entry lists.
pub open spec fn theme_distance(a: Seq<ThemeItem>, b: Seq<ThemeItem>) -> Seq<i64> {
    Seq::new(1200, |i: int| theme_dist_at(a, b, i))
}

/// Blending a theme with itself changes no entry, at every fraction.
pub proof fn lemma_theme_lerp_identity(x: Seq<ThemeItem>, f: int)
    requires
        0 <= f <= SCALE,
    ensures
        lerp_items(x, x, f) == x,
{
    assert forall|i: int| 0 <= i < x.len() implies lerp_items(x, x, f)[i] == x[i] by {
        <ThemeItem as Animate>::lemma_lerp_identity(x[i], f);
    }
    assert(lerp_items(x, x, f) =~= x);
}

/// Blending at fraction zero keeps every entry of the start list.
pub proof fn lemma_theme_lerp_zero(a: Seq<ThemeItem>, b: Seq<ThemeItem>)
    ensures
        lerp_items(a, b, 0) == a,
{
    assert forall|i: int| 0 <= i < a.len() implies lerp_items(a, b, 0)[i] == a[i] by {
        if i < b.len() {
            <ThemeItem as Animate>::lemma_lerp_zero(a[i], b[i]);
        }
    }
    assert(lerp_items(a, b, 0) =~= a);
}

/// The distance from a theme to itself is the zero vector.
pub proof fn lemma_theme_distance_self_zero(x: Seq<ThemeItem>)
    ensures
        theme_distance(x, x) == Seq::new(1200, |i: int| 0i64),
{
    assert forall|i: int| 0 <= i < 1200 implies theme_dist_at(x, x, i) == 0i64 by {
        let k = i / 8;
        if k < x.len() {
            <ThemeItem as Animate>::lemma_distance_self_zero(x[k]);
            assert(0 <= i % 8 < 8);
        }
    }
    assert(theme_distance(x, x) =~= Seq::new(1200, |i: int| 0i64));
}

impl ThemeData {
    /// The fixed number of scalar components of a theme.
    pub fn components() -> (r: usize)
        ensures
            r == 1200,
    {
        THEME_COMPONENTS
    }

    /// An exact copy of the theme data.
    pub fn clone_data(&self) -> (r: Self)
        ensures
            r.items@ == self.items@,
            r.name == self.name,
    {
        let name: Option<String> = match &self.name {
            Some(s) => Some(s.clone()),
            None => None,
        };
        let n: usize = self.items.len();
        let mut items: Vec<ThemeItem> = Vec::new();
        let mut k: usize = 0;
        while k < n
            invariant
                k <= n,
                n == self.items@.len(),
                items@ == self.items@.subrange(0, k as int),
            decreases n - k,
        {
            items.push(self.items[k]);
            proof {
                assert(items@ =~= self.items@.subrange(0, k + 1));
            }
            k = k + 1;
        }
        proof {
            assert(items@ =~= self.items@);
        }
        ThemeData { name, items }
    }

    /// Whether two themes hold the same name and the same entries.
    pub fn eq_data(&self, other: &Self) -> (r: bool)
        ensures
            r == same_data(*self, *other),
    {
        let names_same: bool = match (&self.name, &other.name) {
            (None, None) => true,
            (Some(a), Some(b)) => *a == *b,
            _ => false,
        };
        if !names_same {
            return false;
        }
        let n: usize = self.items.len();
        if n != other.items.len() {
            proof {
                assert(self.items@.len() != other.items@.len());
            }
            return false;
        }
        let mut k: usize = 0;
        while k < n
            invariant
                k <= n,
                n == self.items@.len(),
                n == other.items@.len(),
                forall|i: int| 0 <= i < k ==> self.items@[i] == other.items@[i],
            decreases n - k,
        {
            let a: ThemeItem = self.items[k];
            let b: ThemeItem = other.items[k];
            if !(a == b) {
                return false;
            }
            k = k + 1;
        }
        proof {
            assert(self.items@ =~= other.items@);
        }
        true
    }

    /// Sets `self` to the entry-wise blend of `start` and `end` at
    /// fraction `f / SCALE`.
    pub fn lerp(&mut self, start: &Self, end: &Self, f: u64)
        requires
            f <= SCALE,
        ensures
            final(self).items@ == lerp_items(start.items@, end.items@, f as int),
            final(self).name == start.name,
    {
        let name: Option<String> = match &start.name {
            Some(s) => Some(s.clone()),
            None => None,
        };
        let n: usize = start.items.len();
        let m: usize = end.items.len();
        let mut items: Vec<ThemeItem> = Vec::new();
        let mut k: usize = 0;
        while k < n
            invariant
                k <= n,
                n == start.items@.len(),
                m == end.items@.len(),
                f <= SCALE,
                items@.len() == k as int,
                forall|i: int| 0 <= i < k ==> items@[i] == lerp_items(
                    start.items@,
                    end.items@,
                    f as int,
                )[i],
            decreases n - k,
        {
            let it: ThemeItem = if k < m {
                let mut c: ThemeItem = start.items[k];
                c.lerp(&start.items[k], &end.items[k], f);
                c
            } else {
                start.items[k]
            };
            items.push(it);
            k = k + 1;
        }
        proof {
            assert(items@ =~= lerp_items(start.items@, end.items@, f as int));
        }
        self.items = items;
        self.name = name;
    }

    /// The fixed-length distance vector from `self` to `end`: pairwise
    /// over the overlapping prefix, zero-padded to the component count.
    pub fn distance_to(&self, end: &Self) -> (r: Vec<i64>)
        ensures
            r@ == theme_distance(self.items@, end.items@),
    {
        let n: usize = self.items.len();
        let m: usize = end.items.len();
        let bound: usize = if n < m {
            n
        } else {
            m
        };
        let pairs: usize = if bound < THEME_CAP {
            bound
        } else {
            THEME_CAP
        };
        let mut v: Vec<i64> = Vec::new();
        let mut k: usize = 0;
        while k < pairs
            invariant
                k <= pairs,
                pairs <= n,
                pairs <= m,
                pairs <= 150,
                n == self.items@.len(),
                m == end.items@.len(),
                v@.len() == 8 * k,
                forall|i: int| 0 <= i < 8 * k ==> v@[i] == theme_dist_at(self.items@, end.items@, i),
            decreases pairs - k,
        {
            let d: Vec<i64> = self.items[k].distance_to(&end.items[k]);
            proof {
                let bk = end.items@[k as int];
                <ThemeItem as Animate>::lemma_distance_len(self.items@[k as int], bk);
            }
            let mut j: usize = 0;
            while j < 8
                invariant
                    j <= 8,
                    k < pairs,
                    pairs <= n,
                    pairs <= m,
                    n == self.items@.len(),
                    m == end.items@.len(),
                    d@ == <ThemeItem as Animate>::distance_spec(
                        self.items@[k as int],
                        end.items@[k as int],
                    ),
                    d@.len() == 8,
                    v@.len() == 8 * k + j,
                    forall|i: int| 0 <= i < 8 * k + j ==> v@[i] == theme_dist_at(
                        self.items@,
                        end.items@,
                        i,
                    ),
                decreases 8 - j,
            {
                v.push(d[j]);
                proof {
                    let i = 8 * (k as int) + j;
                    assert(i / 8 == k && i % 8 == j) by (nonlinear_arith)
                        requires
                            0 <= j < 8,
                            0 <= k,
                            i == 8 * (k as int) + j;
                    assert(v@[i] == theme_dist_at(self.items@, end.items@, i));
                }
                j = j + 1;
            }
            k = k + 1;
        }
        while v.len() < 1200
            invariant
                pairs <= n,
                pairs <= m,
                pairs == (if (if n < m {
                    n
                } else {
                    m
                }) < 150 {
                    (if n < m {
                        n
                    } else {
                        m
                    })
                } else {
                    150
                }),
                n == self.items@.len(),
                m == end.items@.len(),
                8 * pairs <= v@.len() <= 1200,
                forall|i: int| 0 <= i < 8 * pairs ==> v@[i] == theme_dist_at(
                    self.items@,
                    end.items@,
                    i,
                ),
                forall|i: int| 8 * pairs <= i < v@.len() ==> v@[i] == 0i64,
            decreases 1200 - v.len(),
        {
            v.push(0);
        }
        proof {
            assert forall|i: int| 0 <= i < 1200 implies v@[i] == theme_dist_at(
                self.items@,
                end.items@,
                i,
            ) by {
                if i >= 8 * pairs {
                    assert(i / 8 >= pairs) by (nonlinear_arith)
                        requires
                            i >= 8 * (pairs as int),
                            0 <= pairs;
                    assert(theme_dist_at(self.items@, end.items@, i) == 0i64);
                }
            }
            assert(v@ =~= theme_distance(self.items@, end.items@));
        }
        v
    }

    /// Consumes one full run of theme deltas from `deltas`, starting at
    /// `cursor`: each entry up to the cap consumes its eight deltas, the
    /// rest of the run is treated as padding.  Advances `cursor` past the
    /// whole run.
    pub fn apply_deltas(&mut self, deltas: &Vec<i64>, cursor: &mut usize)
        requires
            *old(cursor) + 1200 <= deltas@.len(),
        ensures
            *final(cursor) == *old(cursor) + 1200,
            final(self).items@ == apply_items(
                old(self).items@,
                deltas@.subrange(*old(cursor) as int, *old(cursor) + 1200),
            ),
            final(self).name == old(self).name,
    {
        let len: usize = deltas.len();
        let c0: usize = *cursor;
        let n: usize = self.items.len();
        let bound: usize = if n < THEME_CAP {
            n
        } else {
            THEME_CAP
        };
        let mut items: Vec<ThemeItem> = Vec::new();
        let mut k: usize = 0;
        while k < n
            invariant
                k <= n,
                n == old(self).items@.len(),
                bound == (if n < 150 {
                    n
                } else {
                    150
                }),
                c0 + 1200 <= deltas@.len(),
                *cursor == c0 + 8 * (if k < bound {
                    k as int
                } else {
                    bound as int
                }),
                *old(self) == *self,
                items@.len() == k as int,
                forall|i: int| 0 <= i < k ==> items@[i] == apply_items(
                    old(self).items@,
                    deltas@.subrange(c0 as int, c0 + 1200),
                )[i],
            decreases n - k,
        {
            let it: ThemeItem = if k < bound {
                let mut c: ThemeItem = self.items[k];
                c.apply_deltas(deltas, cursor);
                proof {
                    let whole = deltas@.subrange(c0 as int, c0 + 1200);
                    assert(whole.subrange(8 * (k as int), 8 * (k as int) + 8) =~= deltas@.subrange(
                        c0 + 8 * (k as int),
                        c0 + 8 * (k as int) + 8,
                    ));
                }
                c
            } else {
                self.items[k]
            };
            items.push(it);
            k = k + 1;
        }
        self.items = items;
        *cursor = c0 + 1200;
        proof {
            assert(self.items@ =~= apply_items(
                old(self).items@,
                deltas@.subrange(c0 as int, c0 + 1200),
            ));
        }
    }
}

/// A style as plain values: the foreground channels, the background
/// channels, and the font-style bits.
pub open spec fn style_tuple(s: StyleModifier) -> (
    Option<(u8, u8, u8, u8)>,
    Option<(u8, u8, u8, u8)>,
    Option<u8>,
) {
    (
        match s.foreground {
            Some(c) => Some((c.r, c.g, c.b, c.a)),
            None => None,
        },
        match s.background {
            Some(c) => Some((c.r, c.g, c.b, c.a)),
            None => None,
        },
        s.font_style,
    )
}

/// The theme entry holding the style the plain values describe.
pub open spec fn item_of_tuple(
    t: (Option<(u8, u8, u8, u8)>, Option<(u8, u8, u8, u8)>, Option<u8>),
) -> ThemeItem {
    ThemeItem {
        style: StyleModifier {
            foreground: match t.0 {
                Some(c) => Some(Color { r: c.0, g: c.1, b: c.2, a: c.3 }),
                None => None,
            },
            background: match t.1 {
                Some(c) => Some(Color { r: c.0, g: c.1, b: c.2, a: c.3 }),
                None => None,
            },
            font_style: t.2,
        },
    }
}

/// A theme's entries as plain values.
pub open spec fn data_styles(d: ThemeData) -> Seq<
    (Option<(u8, u8, u8, u8)>, Option<(u8, u8, u8, u8)>, Option<u8>),
> {
    d.items@.map(|i: int, it: ThemeItem| style_tuple(it.style))
}

/// The entries the plain values describe.
pub open spec fn items_of_styles(
    s: Seq<(Option<(u8, u8, u8, u8)>, Option<(u8, u8, u8, u8)>, Option<u8>)>,
) -> Seq<ThemeItem> {
    s.map(|i: int, t: (Option<(u8, u8, u8, u8)>, Option<(u8, u8, u8, u8)>, Option<u8>)| item_of_tuple(t))
}

/// A theme's entries are exactly the entries its plain values describe.
pub proof fn lemma_styles_round_trip(d: ThemeData)
    ensures
        items_of_styles(data_styles(d)) == d.items@,
{
    assert forall|i: int| 0 <= i < d.items@.len() implies items_of_styles(data_styles(d))[i]
        == d.items@[i] by {
        let it = d.items@[i];
        assert(item_of_tuple(style_tuple(it.style)) == it);
    }
    assert(items_of_styles(data_styles(d)) =~= d.items@);
}

/// The first `THEME_CAP` entries of a style list, or the whole list when
/// it is no longer than the cap.
pub open spec fn trim_cap(
    s: Seq<(Option<(u8, u8, u8, u8)>, Option<(u8, u8, u8, u8)>, Option<u8>)>,
) -> Seq<(Option<(u8, u8, u8, u8)>, Option<(u8, u8, u8, u8)>, Option<u8>)> {
    if s.len() <= 150 {
        s
    } else {
        s.subrange(0, 150)
    }
}

/// The scope styles of the bundled default theme stored under a key name:
/// embedded data of the highlighting crate, a function of the key alone.
/// An unknown key has no entries.
pub uninterp spec fn default_theme_styles(name: Seq<char>) -> Seq<
    (Option<(u8, u8, u8, u8)>, Option<(u8, u8, u8, u8)>, Option<u8>),
>;

/// Relies on syntect's `ThemeSet::load_defaults` and the theme map it
/// fills: the scope styles of a bundled default theme are embedded in the
/// crate, a function of the key name alone; an unknown key yields no
/// entries.
#[verifier::external_body]
fn load_default_theme(name: &str) -> (r: ThemeData)
    ensures
        data_styles(r) == default_theme_styles(name@),
{
    let set = syntect::highlighting::ThemeSet::load_defaults();
    let (nm, items) = match set.themes.get(name) {
        Some(t) => (t.name.clone(), t.scopes.iter().map(|it| ThemeItem {
            style: StyleModifier {
                foreground: it.style.foreground.map(|c| Color { r: c.r, g: c.g, b: c.b, a: c.a }),
                background: it.style.background.map(|c| Color { r: c.r, g: c.g, b: c.b, a: c.a }),
                font_style: it.style.font_style.map(|f| f.bits()),
            },
        }).collect()),
        None => (None, Vec::new()),
    };
    ThemeData { name: nm, items }
}

/// A color scheme for highlighting: one of the bundled named presets, or
/// a custom theme carried by value.
#[derive(Debug, Clone)]
pub enum Theme {
    SolarizedDark,
    SolarizedLight,
    Base16Mocha,
    Base16OceanDark,
    Base16OceanLight,
    Base16Eighties,
    InspiredGitHub,
    Custom(ThemeData),
}

/// Whether two themes are the same: the same preset, or custom themes
/// with the same entries.
pub open spec fn same_theme(a: Theme, b: Theme) -> bool {
    match (a, b) {
        (Theme::SolarizedDark, Theme::SolarizedDark) => true,
        (Theme::SolarizedLight, Theme::SolarizedLight) => true,
        (Theme::Base16Mocha, Theme::Base16Mocha) => true,
        (Theme::Base16OceanDark, Theme::Base16OceanDark) => true,
        (Theme::Base16OceanLight, Theme::Base16OceanLight) => true,
        (Theme::Base16Eighties, Theme::Base16Eighties) => true,
        (Theme::InspiredGitHub, Theme::InspiredGitHub) => true,
        (Theme::Custom(x), Theme::Custom(y)) => same_data(x, y),
        _ => false,
    }
}

impl Theme {
    /// The key under which a preset is stored in the bundled default
    /// theme set.  A custom theme has no key.
    pub open spec fn key_spec(self) -> Seq<char> {
        match self {
            Theme::SolarizedDark => "Solarized (dark)"@,
            Theme::SolarizedLight => "Solarized (light)"@,
            Theme::Base16Mocha => "base16-mocha.dark"@,
            Theme::Base16OceanDark => "base16-ocean.dark"@,
            Theme::Base16OceanLight => "base16-ocean.light"@,
            Theme::Base16Eighties => "base16-eighties.dark"@,
            Theme::InspiredGitHub => "InspiredGitHub"@,
            Theme::Custom(_) => ""@,
        }
    }

    /// The entries this theme resolves to: a custom theme's own entries;
    /// for a preset, the bundled default theme's entries, truncated to the
    /// cap.
    pub open spec fn resolved_items_spec(self) -> Seq<ThemeItem> {
        match self {
            Theme::Custom(d) => d.items@,
            _ => items_of_styles(trim_cap(default_theme_styles(self.key_spec()))),
        }
    }

    /// The name this theme is shown under.  A custom theme is shown
    /// under its own name, or without one when it has none.
    pub open spec fn display_name_spec(self) -> Seq<char> {
        match self {
            Theme::SolarizedDark => "Solarized Dark"@,
            Theme::SolarizedLight => "Solarized Light"@,
            Theme::Base16Mocha => "Mocha"@,
            Theme::Base16OceanDark => "Ocean Dark"@,
            Theme::Base16OceanLight => "Ocean Light"@,
            Theme::Base16Eighties => "Eighties"@,
            Theme::InspiredGitHub => "Inspired GitHub"@,
            Theme::Custom(d) => match d.name {
                Some(s) => s@,
                None => ""@,
            },
        }
    }

    /// The key of a preset in the bundled default theme set.
    pub fn key(&self) -> (r: &'static str)
        ensures
            r@ == self.key_spec(),
    {
        match self {
            Theme::SolarizedDark => "Solarized (dark)",
            Theme::SolarizedLight => "Solarized (light)",
            Theme::Base16Mocha => "base16-mocha.dark",
            Theme::Base16OceanDark => "base16-ocean.dark",
            Theme::Base16OceanLight => "base16-ocean.light",
            Theme::Base16Eighties => "base16-eighties.dark",
            Theme::InspiredGitHub => "InspiredGitHub",
            Theme::Custom(_) => "",
        }
    }

    /// The name this theme is shown under.
    pub fn display_name(&self) -> (r: &str)
        ensures
            r@ == self.display_name_spec(),
    {
        match self {
            Theme::SolarizedDark => "Solarized Dark",
            Theme::SolarizedLight => "Solarized Light",
            Theme::Base16Mocha => "Mocha",
            Theme::Base16OceanDark => "Ocean Dark",
            Theme::Base16OceanLight => "Ocean Light",
            Theme::Base16Eighties => "Eighties",
            Theme::InspiredGitHub => "Inspired GitHub",
            Theme::Custom(d) => match &d.name {
                Some(s) => s.as_str(),
                None => "",
            },
        }
    }

    /// Whether two themes are the same preset, or custom themes with the
    /// same entries.
    pub fn eq_theme(&self, other: &Self) -> (r: bool)
        ensures
            r == same_theme(*self, *other),
    {
        match (self, other) {
            (Theme::SolarizedDark, Theme::SolarizedDark) => true,
            (Theme::SolarizedLight, Theme::SolarizedLight) => true,
            (Theme::Base16Mocha, Theme::Base16Mocha) => true,
            (Theme::Base16OceanDark, Theme::Base16OceanDark) => true,
            (Theme::Base16OceanLight, Theme::Base16OceanLight) => true,
            (Theme::Base16Eighties, Theme::Base16Eighties) => true,
            (Theme::InspiredGitHub, Theme::InspiredGitHub) => true,
            (Theme::Custom(x), Theme::Custom(y)) => x.eq_data(y),
            _ => false,
        }
    }

    /// The animatable theme data this theme resolves to.  A preset's
    /// entries come from the bundled default theme set and are truncated
    /// to the cap; a custom theme's entries are its own.
    pub fn highlighter_theme(&self) -> (r: ThemeData)
        ensures
            r.items@ == self.resolved_items_spec(),
            *self is Custom ==> r.name == self->Custom_0.name,
    {
        match self {
            Theme::Custom(d) => d.clone_data(),
            _ => {
                let key: &'static str = self.key();
                let mut d = load_default_theme(key);
                proof {
                    lemma_styles_round_trip(d);
                }
                if d.items.len() > THEME_CAP {
                    let ghost before = d.items@;
                    d.items.truncate(THEME_CAP);
                    proof {
                        let styles = default_theme_styles(self.key_spec());
                        assert(data_styles(d) =~= styles.subrange(0, 150));
                        lemma_styles_round_trip(d);
                        assert(items_of_styles(trim_cap(styles)) == d.items@);
                    }
                } else {
                    proof {
                        let styles = default_theme_styles(self.key_spec());
                        assert(items_of_styles(trim_cap(styles)) == d.items@);
                    }
                }
                d
            },
        }
    }

    /// Consumes one full run of theme deltas, applying them to the
    /// resolved entries; the theme becomes a custom theme holding the
    /// moved entries.
    pub fn update(&mut self, deltas: &Vec<i64>, cursor: &mut usize)
        requires
            *old(cursor) + 1200 <= deltas@.len(),
        ensures
            *final(cursor) == *old(cursor) + 1200,
            (*final(self)) is Custom,
            (*final(self))->Custom_0.items@ == apply_items(
                old(self).resolved_items_spec(),
                deltas@.subrange(*old(cursor) as int, *old(cursor) + 1200),
            ),
            *old(self) is Custom ==> (*final(self))->Custom_0.name == old(self)->Custom_0.name,
    {
        let mut d = self.highlighter_theme();
        d.apply_deltas(deltas, cursor);
        *self = Theme::Custom(d);
    }

    /// The fixed-length distance vector between the entries the two
    /// themes resolve to.
    pub fn distance_to(&self, end: &Theme) -> (r: Vec<i64>)
        ensures
            r@ == theme_distance(self.resolved_items_spec(), end.resolved_items_spec()),
    {
        let a = self.highlighter_theme();
        let b = end.highlighter_theme();
        a.distance_to(&b)
    }
}

} // verus!
