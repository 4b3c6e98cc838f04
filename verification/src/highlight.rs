//! The decision core of the syntax-highlighting adapter.
//!
//! The adapter around the parsing engine keeps a cache of parse-state
//! snapshots, one per block of [`LINES_PER_SNAPSHOT`] lines, and splits
//! each parsed line into byte ranges at the offsets where scope
//! operations apply.  Everything here is that bookkeeping: which
//! snapshots to keep when jumping to a line, when to take a new snapshot,
//! how a line splits into ranges, and how a scope style turns into a text
//! format.  The parsing engine itself stays outside, handing in plain
//! offsets and taking plain decisions back.

use vstd::prelude::*;
use crate::style::{Color, StyleModifier, FONT_BOLD, FONT_ITALIC};

verus! {

/// How many lines of parse state share one cached snapshot.
pub const LINES_PER_SNAPSHOT: usize = 50;

/// A font weight chosen for a highlight.
#[derive(Clone, Copy, Debug, PartialEq, Eq, Structural)]
pub enum FontWeight {
    Normal,
    Bold,
}

/// A font slant chosen for a highlight.
#[derive(Clone, Copy, Debug, PartialEq, Eq, Structural)]
pub enum FontSlant {
    Normal,
    Italic,
}

/// The text format a highlight asks for: an optional color change and an
/// optional font change.
#[derive(Clone, Copy, Debug, PartialEq)]
pub struct Format {
    pub color: Option<Color>,
    pub font: Option<(FontWeight, FontSlant)>,
}

/// The font for a bold and italic flag pair: no change when neither flag
/// is set, otherwise the weight and slant the flags call for.
pub open spec fn font_choice_spec(bold: bool, italic: bool) -> Option<(FontWeight, FontSlant)> {
    if bold || italic {
        Some(
            (
                if bold {
                    FontWeight::Bold
                } else {
                    FontWeight::Normal
                },
                if italic {
                    FontSlant::Italic
                } else {
                    FontSlant::Normal
                },
            ),
        )
    } else {
        None
    }
}

/// Chooses the font for a bold and italic flag pair.
pub fn font_choice(bold: bool, italic: bool) -> (r: Option<(FontWeight, FontSlant)>)
    ensures
        r == font_choice_spec(bold, italic),
{
    if bold || italic {
        Some(
            (
                if bold {
                    FontWeight::Bold
                } else {
                    FontWeight::Normal
                },
                if italic {
                    FontSlant::Italic
                } else {
                    FontSlant::Normal
                },
            ),
        )
    } else {
        None
    }
}

/// A highlight produced for one span of a line: the style of the scope
/// stack at that span.
#[derive(Clone, Copy, Debug)]
pub struct Highlight(pub StyleModifier);

impl Highlight {
    /// The color of this highlight.  `None` leaves the original text
    /// color unchanged.
    pub fn color(&self) -> (r: Option<Color>)
        ensures
            r == self.0.foreground,
    {
        self.0.foreground
    }

    /// The font of this highlight, decided by the bold and italic bits of
    /// the style.  `None` leaves the original font unchanged.
    pub fn font(&self) -> (r: Option<(FontWeight, FontSlant)>)
        ensures
            r == (match self.0.font_style {
                Some(bits) => font_choice_spec(bits & FONT_BOLD != 0, bits & FONT_ITALIC != 0),
                None => None,
            }),
    {
        match self.0.font_style {
            Some(bits) => font_choice(bits & FONT_BOLD != 0, bits & FONT_ITALIC != 0),
            None => None,
        }
    }

    /// The whole format of this highlight: its color and its font.
    pub fn to_format(&self) -> (r: Format)
        ensures
            r.color == self.0.foreground,
            r.font == (match self.0.font_style {
                Some(bits) => font_choice_spec(bits & FONT_BOLD != 0, bits & FONT_ITALIC != 0),
                None => None,
            }),
    {
        Format { color: self.color(), font: self.font() }
    }
}

/// Where the snapshot cache should stand after jumping to a line: how
/// many snapshots to keep, and at which line parsing resumes.  The kept
/// prefix is then extended with a copy of its last snapshot (or a fresh
/// state when none is left) as the new working state.
#[derive(Clone, Copy, Debug, PartialEq, Eq, Structural)]
pub struct CachePlan {
    pub keep: usize,
    pub current_line: usize,
}

/// The plan for jumping to `line` with `cache_len` snapshots held: a jump
/// within the cached range keeps every snapshot up to the line's block
/// and resumes at that block's first line; a jump beyond the cache falls
/// back to the first snapshot and resumes at line zero.
pub open spec fn change_line_spec(cache_len: int, line: int) -> CachePlan {
    let snapshot = line / (LINES_PER_SNAPSHOT as int);
    if snapshot <= cache_len {
        CachePlan { keep: snapshot as usize, current_line: (snapshot * (LINES_PER_SNAPSHOT as int)) as usize }
    } else {
        CachePlan { keep: 1, current_line: 0 }
    }
}

/// Plans the jump to `line` with `cache_len` snapshots held.  Parsing
/// never resumes past the requested line.
pub fn change_line_plan(cache_len: usize, line: usize) -> (r: CachePlan)
    ensures
        r == change_line_spec(cache_len as int, line as int),
        r.current_line <= line,
        r.keep <= cache_len || r.keep == 1,
{
    let snapshot: usize = line / LINES_PER_SNAPSHOT;
    proof {
        assert((line as int / 50) * 50 <= line as int && 0 <= (line as int / 50) * 50)
            by (nonlinear_arith)
            requires
                line as int >= 0;
    }
    if snapshot <= cache_len {
        CachePlan { keep: snapshot, current_line: snapshot * LINES_PER_SNAPSHOT }
    } else {
        CachePlan { keep: 1, current_line: 0 }
    }
}

/// Whether the working parse state must be snapshotted before the line at
/// `current_line` is highlighted: true when the line's block has no
/// snapshot yet.
pub fn needs_snapshot(cache_len: usize, current_line: usize) -> (r: bool)
    ensures
        r == (current_line as int / (LINES_PER_SNAPSHOT as int) >= cache_len),
{
    current_line / LINES_PER_SNAPSHOT >= cache_len
}

/// Splits one parsed line into contiguous byte ranges at the offsets
/// where scope operations apply.
///
/// For a line of length `line_length` with operations at the held
/// `offsets`, the ranges walk the line from byte zero to its end, cut at
/// every offset.  Each range is yielded together with the number of
/// operations that precede it: `0` for the leading range before any
/// operation, `k` for the range that follows the `k`-th operation, so the
/// caller can apply operations to its scope stack as it walks.
#[derive(Debug)]
pub struct ScopeRanges {
    pub offsets: Vec<usize>,
    pub line_length: usize,
    pub index: usize,
    pub last_str_index: usize,
}

impl ScopeRanges {
    /// Starts walking a line of `line_length` bytes whose operations sit
    /// at `offsets`.
    pub fn new(offsets: Vec<usize>, line_length: usize) -> (r: Self)
        ensures
            r.offsets@ == offsets@,
            r.line_length == line_length,
            r.index == 0,
            r.last_str_index == 0,
    {
        ScopeRanges { offsets, line_length, index: 0, last_str_index: 0 }
    }

    /// The next range of the line and the count of operations before it,
    /// or `None` once every range, including the tail after the last
    /// operation, has been yielded.
    pub fn next_range(&mut self) -> (r: Option<(usize, usize, usize)>)
        requires
            old(self).offsets@.len() < usize::MAX,
        ensures
            ({
                let t = *old(self);
                if t.index > t.offsets@.len() {
                    r is None && *final(self) == t
                } else {
                    let next = if t.index == t.offsets@.len() {
                        t.line_length
                    } else {
                        t.offsets@[t.index as int]
                    };
                    &&& r == Some((t.last_str_index, next, t.index))
                    &&& final(self).offsets@ == t.offsets@
                    &&& final(self).line_length == t.line_length
                    &&& final(self).index == t.index + 1
                    &&& final(self).last_str_index == next
                }
            }),
    {
        let len: usize = self.offsets.len();
        if self.index > len {
            return None;
        }
        let next: usize = if self.index == len {
            self.line_length
        } else {
            self.offsets[self.index]
        };
        let start: usize = self.last_str_index;
        let op: usize = self.index;
        self.last_str_index = next;
        self.index = self.index + 1;
        Some((start, next, op))
    }
}

} // verus!
