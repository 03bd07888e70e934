//! The scroll position as an anchor in the text plus an offset.
//!
//! A row number goes stale as soon as text is inserted or removed above it.
//! The top of the view is therefore kept as an anchor, a handle of the host's
//! text engine that follows the text around it, together with an offset from
//! the display row on which the anchor lies.
//!
//! The text engine is not part of this library. What a display snapshot says
//! of an anchor or of a row reaches the functions here as plain values; what
//! they need to know is asked for with an [`AnchorQuery`] and answered with a
//! [`Located`].

use vstd::prelude::*;
use crate::geometry::{
    count_whole_units, length_of_units, saturate, saturating_sum, units, whole_units, Vector2,
};

verus! {

/// A place in the text that stays with its surroundings when the text is
/// edited elsewhere: either the start of the buffer, which needs no handle,
/// or a handle `A` of the host's text engine.
#[derive(Clone, Copy, Debug, PartialEq, Eq)]
pub enum Anchor<A> {
    Start,
    At(A),
}

/// The side of a boundary that an anchor attaches to, where a position falls
/// between two pieces of text.
#[derive(Clone, Copy, Debug, PartialEq, Eq, Structural)]
pub enum Bias {
    Left,
    Right,
}

/// A position in the buffer.
#[derive(Clone, Copy, Debug, PartialEq, Eq, Structural)]
pub struct Point {
    pub row: u32,
    pub column: u32,
}

/// A position on the screen, after wrapping and folding.
#[derive(Clone, Copy, Debug, PartialEq, Eq, Structural)]
pub struct DisplayPoint {
    pub row: u32,
    pub column: u32,
}

/// A question to the host's display snapshot: which anchor holds this
/// position, and where does that anchor lie?
#[derive(Clone, Copy, Debug, PartialEq, Eq, Structural)]
pub enum AnchorQuery {
    /// The anchor at the buffer position that this screen position shows.
    Display { point: DisplayPoint, bias: Bias },
    /// The anchor at this buffer position.
    Buffer { point: Point, bias: Bias },
}

/// The snapshot's answer to an [`AnchorQuery`]: the anchor, and the display
/// row and the buffer row on which it lies.
#[derive(Clone, Copy, Debug, PartialEq, Eq)]
pub struct Located<A> {
    pub anchor: Anchor<A>,
    pub display_row: u32,
    pub buffer_row: u32,
}

/// Where the top of the view is: an anchor and the offset from it.
///
/// The horizontal position is `offset.x`, whatever the anchor. At the start
/// of the buffer the vertical position is `offset.y`, and never less than
/// zero; at any other anchor it is the anchor's display row plus `offset.y`.
#[derive(Clone, Copy, Debug, PartialEq, Eq)]
pub struct ScrollAnchor<A> {
    pub offset: Vector2,
    pub top_anchor: Anchor<A>,
}

impl DisplayPoint {
    /// Whether this position comes after `other` in reading order.
    pub open spec fn follows(self, other: DisplayPoint) -> bool {
        self.row > other.row || (self.row == other.row && self.column > other.column)
    }

    /// Whether this position lies above the row that is `rows` rows below
    /// `top`.
    pub open spec fn within_rows(self, top: DisplayPoint, rows: u32) -> bool {
        self.row < top.row + rows
    }

    /// Tests whether this position comes after `other` in reading order.
    pub fn is_after(&self, other: &DisplayPoint) -> (yes: bool)
        ensures
            yes == self.follows(*other),
    {
        self.row > other.row || (self.row == other.row && self.column > other.column)
    }

    /// Tests whether this position lies above the row that is `rows` rows
    /// below `top`.
    pub fn is_within_rows(&self, top: &DisplayPoint, rows: u32) -> (yes: bool)
        ensures
            yes == self.within_rows(*top, rows),
    {
        (self.row as u64) < (top.row as u64) + (rows as u64)
    }
}

impl<A> Anchor<A> {
    /// The anchor at the start of the buffer.
    pub fn min() -> (anchor: Self)
        ensures
            anchor == Anchor::<A>::Start,
    {
        Anchor::Start
    }

    /// Whether this is the anchor at the start of the buffer.
    pub fn is_min(&self) -> (yes: bool)
        ensures
            yes == (*self is Start),
    {
        match self {
            Anchor::Start => true,
            Anchor::At(_) => false,
        }
    }
}

impl<A> Located<A> {
    /// The answer for the start of the buffer on the first display row.
    pub fn start() -> (top: Self)
        ensures
            top == (Located::<A> { anchor: Anchor::Start, display_row: 0, buffer_row: 0 }),
    {
        Located { anchor: Anchor::Start, display_row: 0, buffer_row: 0 }
    }
}

impl<A: Copy> ScrollAnchor<A> {
    /// The anchor of a view that has not been scrolled.
    pub open spec fn spec_new() -> Self {
        ScrollAnchor { offset: Vector2 { x: 0, y: 0 }, top_anchor: Anchor::Start }
    }

    /// The position of the view, given the display row on which the top
    /// anchor lies. The row is not read for the start of the buffer.
    pub open spec fn position(self, top_display_row: u32) -> Vector2 {
        match self.top_anchor {
            Anchor::Start => Vector2 {
                x: self.offset.x,
                y: if self.offset.y >= 0 {
                    self.offset.y
                } else {
                    0
                },
            },
            Anchor::At(_) => Vector2 {
                x: self.offset.x,
                y: saturate(units(top_display_row) + self.offset.y),
            },
        }
    }

    /// The buffer row of the top anchor, given the row on which the buffer
    /// holds it. The start of the buffer is on row zero.
    pub open spec fn buffer_row(self, anchor_row: u32) -> u32 {
        match self.top_anchor {
            Anchor::Start => 0,
            Anchor::At(_) => anchor_row,
        }
    }

    /// What a snapshot must be asked before the view can be put at
    /// `position`: nothing for a target at or above the first row, else the
    /// anchor at the start of the target's display row, attached to the text
    /// on its right.
    pub open spec fn spec_top_query(position: Vector2) -> Option<AnchorQuery> {
        if position.y <= 0 {
            None
        } else {
            Some(
                AnchorQuery::Display {
                    point: DisplayPoint { row: whole_units(position.y), column: 0 },
                    bias: Bias::Right,
                },
            )
        }
    }

    /// The anchor that puts the view at `position`, where `top` answers
    /// `spec_top_query(position)`.
    ///
    /// A target at or above the first row is held by the start of the buffer,
    /// with its negative components set to zero. Any other is held by the
    /// anchor found, and the vertical offset is what remains of the target
    /// above or below that anchor's display row.
    pub open spec fn spec_at(position: Vector2, top: Located<A>) -> Self {
        if position.y <= 0 {
            ScrollAnchor {
                offset: position.spec_max(Vector2 { x: 0, y: 0 }),
                top_anchor: Anchor::Start,
            }
        } else {
            ScrollAnchor {
                offset: Vector2 {
                    x: position.x,
                    y: (position.y - units(top.display_row)) as i64,
                },
                top_anchor: top.anchor,
            }
        }
    }

    /// The buffer row at the top of a view put at `position`.
    pub open spec fn spec_top_row_at(position: Vector2, top: Located<A>) -> u32 {
        if position.y <= 0 {
            0
        } else {
            top.buffer_row
        }
    }

    #[verifier::when_used_as_spec(spec_new)]
    pub fn new() -> (anchor: Self)
        ensures
            anchor == Self::spec_new(),
    {
        ScrollAnchor { offset: Vector2::zero(), top_anchor: Anchor::min() }
    }

    /// Resolves the anchor to the position of the view. `top_display_row` is
    /// the display row on which the snapshot places the top anchor.
    pub fn scroll_position(&self, top_display_row: u32) -> (position: Vector2)
        ensures
            position == self.position(top_display_row),
    {
        match self.top_anchor {
            Anchor::Start => Vector2 {
                x: self.offset.x,
                y: if self.offset.y >= 0 {
                    self.offset.y
                } else {
                    0
                },
            },
            Anchor::At(_) => Vector2 {
                x: self.offset.x,
                y: saturating_sum(length_of_units(top_display_row), self.offset.y),
            },
        }
    }

    /// The buffer row at the top of the view. `anchor_row` is the row on
    /// which the buffer holds the top anchor.
    pub fn top_row(&self, anchor_row: u32) -> (row: u32)
        ensures
            row == self.buffer_row(anchor_row),
    {
        match self.top_anchor {
            Anchor::Start => 0,
            Anchor::At(_) => anchor_row,
        }
    }

    #[verifier::when_used_as_spec(spec_top_query)]
    pub fn top_query(position: Vector2) -> (query: Option<AnchorQuery>)
        ensures
            query == Self::spec_top_query(position),
    {
        if position.y <= 0 {
            None
        } else {
            Some(
                AnchorQuery::Display {
                    point: DisplayPoint { row: count_whole_units(position.y), column: 0 },
                    bias: Bias::Right,
                },
            )
        }
    }

    /// Builds the anchor that puts the view at `position`. `top` is the
    /// snapshot's answer to `top_query(position)`; it is not read where that
    /// query is `None`.
    #[verifier::when_used_as_spec(spec_at)]
    pub fn at(position: Vector2, top: Located<A>) -> (anchor: Self)
        ensures
            anchor == Self::spec_at(position, top),
            position.y <= 0 ==> anchor.top_anchor is Start && anchor.offset.y == 0
                && anchor.offset == position.spec_max(Vector2 { x: 0, y: 0 }),
            position.y > 0 ==> anchor.top_anchor == top.anchor && anchor.offset.x == position.x
                && anchor.offset.y == position.y - units(top.display_row),
    {
        if position.y <= 0 {
            ScrollAnchor { offset: position.max(Vector2::zero()), top_anchor: Anchor::min() }
        } else {
            ScrollAnchor {
                offset: Vector2 {
                    x: position.x,
                    y: position.y - length_of_units(top.display_row),
                },
                top_anchor: top.anchor,
            }
        }
    }
}

/// A view put at a position below the first row, and resolved against the
/// snapshot that placed it, is at that position again, exactly.
///
/// The snapshot's answer must name an anchor of the text, or else place the
/// start of the buffer on the first display row: the start of the buffer is
/// resolved without a row, so an answer that places it further down cannot be
/// met again.
pub proof fn lemma_position_round_trip<A: Copy>(position: Vector2, top: Located<A>)
    requires
        position.y > 0,
        top.anchor is At || top.display_row == 0,
    ensures
        ScrollAnchor::spec_at(position, top).position(top.display_row) == position,
{
}

/// A view put at or above the first row is held by the start of the buffer,
/// whatever the snapshot says, and resolves to the target with its negative
/// components set to zero, whatever row is handed in.
pub proof fn lemma_top_position<A: Copy>(position: Vector2, top: Located<A>, row: u32)
    requires
        position.y <= 0,
    ensures
        ScrollAnchor::spec_at(position, top).top_anchor is Start,
        ScrollAnchor::spec_at(position, top).offset == position.spec_max(Vector2 { x: 0, y: 0 }),
        ScrollAnchor::spec_at(position, top).offset.y == 0,
        ScrollAnchor::spec_at(position, top).position(row) == position.spec_max(
            Vector2 { x: 0, y: 0 },
        ),
{
}

} // verus!
