//! The scroll operations of an editor view.
//!
//! The editor holds the scroll manager of its view and the workspace it
//! belongs to, if any. Its operations are the ones that layout, input
//! handling and collaboration call; each hands the manager what it needs and
//! returns the effects for the host.

use std::cmp::Ordering;
use vstd::prelude::*;
use crate::anchor::{AnchorQuery, Bias, DisplayPoint, Located, Point, ScrollAnchor};
use crate::effects::{Effect, SavedScroll};
use crate::geometry::{advance_less_one, count_whole_units, saturate, whole_units, Vector2, UNIT};
use crate::manager::{ManagerState, ScrollManager};
use crate::scrollbar::ScrollbarAutoHide;

verus! {

/// The scroll side of an editor view.
pub struct Editor<A, S> {
    pub scroll_manager: ScrollManager<A, S>,
    /// The workspace under which the scroll position is stored. A view
    /// outside any workspace stores nothing.
    pub workspace_id: Option<i64>,
}

/// The position one screen-scroll further: `lines` down from `current`, less
/// the one line that stays in view.
pub open spec fn screen_scrolled(current: Vector2, lines: i64) -> Vector2 {
    Vector2 { x: current.x, y: saturate(current.y + lines - UNIT) }
}

/// Where the head of the newest selection is, seen from the screen: `Less`
/// above it, `Equal` on it, `Greater` below it.
///
/// The head is above the screen where the top of the screen comes after it.
/// It is on the screen where the number of visible lines is known and the
/// head lies less than that many whole rows below the top row. Else it is
/// below, and so it counts while no layout has told the number of lines.
pub open spec fn side_of_screen(
    newest_head: DisplayPoint,
    screen_top: DisplayPoint,
    visible_line_count: Option<i64>,
) -> Ordering {
    if screen_top.follows(newest_head) {
        Ordering::Less
    } else if visible_line_count matches Some(lines) && newest_head.within_rows(
        screen_top,
        whole_units(lines),
    ) {
        Ordering::Equal
    } else {
        Ordering::Greater
    }
}

/// What to ask the snapshot before a stored position can be restored: the
/// anchor at the start of the stored row, attached to the text on its left.
/// Nothing is asked where nothing was stored or the store could not be read.
pub open spec fn spec_restore_query<E>(stored: Result<Option<SavedScroll>, E>) -> Option<
    AnchorQuery,
> {
    match stored {
        Ok(Some(saved)) => Some(
            AnchorQuery::Buffer { point: Point { row: saved.top_row, column: 0 }, bias: Bias::Left },
        ),
        _ => None,
    }
}

/// Says what to ask the snapshot before a stored position can be restored.
pub fn restore_query<E>(stored: &Result<Option<SavedScroll>, E>) -> (query: Option<AnchorQuery>)
    ensures
        query == spec_restore_query(*stored),
{
    match stored {
        Ok(Some(saved)) => Some(
            AnchorQuery::Buffer { point: Point { row: saved.top_row, column: 0 }, bias: Bias::Left },
        ),
        _ => None,
    }
}

impl<A: Copy, S: Copy> Editor<A, S> {
    /// The editor of a new view. `now` is the reading of the clock.
    pub fn new(now: u64, workspace_id: Option<i64>) -> (editor: Self)
        ensures
            editor.scroll_manager@ == ManagerState::<A, S>::init(now),
            editor.workspace_id == workspace_id,
    {
        Editor { scroll_manager: ScrollManager::new(now), workspace_id }
    }

    /// The rows kept visible above and below the cursor.
    pub fn vertical_scroll_margin(&mut self) -> (rows: usize)
        ensures
            rows == old(self).scroll_manager@.vertical_scroll_margin,
            final(self).scroll_manager@ == old(self).scroll_manager@,
            final(self).workspace_id == old(self).workspace_id,
    {
        self.scroll_manager.vertical_scroll_margin()
    }

    /// Sets the rows kept visible above and below the cursor. The view is
    /// drawn again.
    pub fn set_vertical_scroll_margin(&mut self, margin_rows: usize) -> (effects: Vec<Effect>)
        ensures
            final(self).scroll_manager@ == (ManagerState {
                vertical_scroll_margin: margin_rows,
                ..old(self).scroll_manager@
            }),
            final(self).workspace_id == old(self).workspace_id,
            effects@ == seq![Effect::Redraw],
    {
        self.scroll_manager.set_vertical_scroll_margin(margin_rows);
        let mut effects: Vec<Effect> = Vec::new();
        effects.push(Effect::Redraw);
        effects
    }

    /// The number of lines that fit into the view, once a layout has told.
    pub fn visible_line_count(&self) -> (lines: Option<i64>)
        ensures
            lines == self.scroll_manager@.visible_line_count,
    {
        self.scroll_manager.visible_line_count()
    }

    /// Takes note of the number of lines that fit into the view.
    pub fn set_visible_line_count(&mut self, lines: i64)
        ensures
            final(self).scroll_manager@ == (ManagerState {
                visible_line_count: Some(lines),
                ..old(self).scroll_manager@
            }),
            final(self).workspace_id == old(self).workspace_id,
    {
        self.scroll_manager.set_visible_line_count(lines);
    }

    /// Puts the view at `scroll_position` for the view's own user. `top` is
    /// the snapshot's answer to `ScrollAnchor::top_query(scroll_position)`.
    pub fn set_scroll_position(
        &mut self,
        scroll_position: Vector2,
        top: Located<A>,
        auto_hide: ScrollbarAutoHide,
    ) -> (effects: Vec<Effect>)
        ensures
            final(self).scroll_manager@ == old(self).scroll_manager@.with_anchor(
                ScrollAnchor::spec_at(scroll_position, top),
                auto_hide,
            ),
            final(self).workspace_id == old(self).workspace_id,
            effects@ == seq![Effect::HideHover] + old(self).scroll_manager@.anchor_effects(
                ScrollAnchor::spec_at(scroll_position, top),
                ScrollAnchor::spec_top_row_at(scroll_position, top),
                true,
                old(self).workspace_id,
                auto_hide,
            ),
    {
        self.set_scroll_position_internal(scroll_position, true, top, auto_hide)
    }

    /// Puts the view at `scroll_position`; `local` says whether the view's
    /// own user asked for it. The hover popover goes away first.
    pub fn set_scroll_position_internal(
        &mut self,
        scroll_position: Vector2,
        local: bool,
        top: Located<A>,
        auto_hide: ScrollbarAutoHide,
    ) -> (effects: Vec<Effect>)
        ensures
            final(self).scroll_manager@ == old(self).scroll_manager@.with_anchor(
                ScrollAnchor::spec_at(scroll_position, top),
                auto_hide,
            ),
            final(self).workspace_id == old(self).workspace_id,
            effects@ == seq![Effect::HideHover] + old(self).scroll_manager@.anchor_effects(
                ScrollAnchor::spec_at(scroll_position, top),
                ScrollAnchor::spec_top_row_at(scroll_position, top),
                local,
                old(self).workspace_id,
                auto_hide,
            ),
    {
        let mut effects: Vec<Effect> = Vec::new();
        effects.push(Effect::HideHover);
        let mut scrolled = self.scroll_manager.set_scroll_position(
            scroll_position,
            top,
            local,
            self.workspace_id,
            auto_hide,
        );
        effects.append(&mut scrolled);
        effects
    }

    /// The position of the view. `top_display_row` is the display row on
    /// which the snapshot places the top anchor.
    pub fn scroll_position(&self, top_display_row: u32) -> (position: Vector2)
        ensures
            position == self.scroll_manager@.anchor.position(top_display_row),
    {
        self.scroll_manager.scroll_position(top_display_row)
    }

    /// Puts the view at `scroll_anchor` for the view's own user.
    /// `anchor_row` is the row on which the buffer holds the anchor.
    pub fn set_scroll_anchor(
        &mut self,
        scroll_anchor: ScrollAnchor<A>,
        anchor_row: u32,
        auto_hide: ScrollbarAutoHide,
    ) -> (effects: Vec<Effect>)
        ensures
            final(self).scroll_manager@ == old(self).scroll_manager@.with_anchor(
                scroll_anchor,
                auto_hide,
            ),
            final(self).workspace_id == old(self).workspace_id,
            effects@ == seq![Effect::HideHover] + old(self).scroll_manager@.anchor_effects(
                scroll_anchor,
                scroll_anchor.buffer_row(anchor_row),
                true,
                old(self).workspace_id,
                auto_hide,
            ),
    {
        self.apply_scroll_anchor(scroll_anchor, anchor_row, true, auto_hide)
    }

    /// Puts the view at `scroll_anchor` on behalf of a remote collaborator.
    /// `anchor_row` is the row on which the buffer holds the anchor.
    pub fn set_scroll_anchor_remote(
        &mut self,
        scroll_anchor: ScrollAnchor<A>,
        anchor_row: u32,
        auto_hide: ScrollbarAutoHide,
    ) -> (effects: Vec<Effect>)
        ensures
            final(self).scroll_manager@ == old(self).scroll_manager@.with_anchor(
                scroll_anchor,
                auto_hide,
            ),
            final(self).workspace_id == old(self).workspace_id,
            effects@ == seq![Effect::HideHover] + old(self).scroll_manager@.anchor_effects(
                scroll_anchor,
                scroll_anchor.buffer_row(anchor_row),
                false,
                old(self).workspace_id,
                auto_hide,
            ),
    {
        self.apply_scroll_anchor(scroll_anchor, anchor_row, false, auto_hide)
    }

    fn apply_scroll_anchor(
        &mut self,
        scroll_anchor: ScrollAnchor<A>,
        anchor_row: u32,
        local: bool,
        auto_hide: ScrollbarAutoHide,
    ) -> (effects: Vec<Effect>)
        ensures
            final(self).scroll_manager@ == old(self).scroll_manager@.with_anchor(
                scroll_anchor,
                auto_hide,
            ),
            final(self).workspace_id == old(self).workspace_id,
            effects@ == seq![Effect::HideHover] + old(self).scroll_manager@.anchor_effects(
                scroll_anchor,
                scroll_anchor.buffer_row(anchor_row),
                local,
                old(self).workspace_id,
                auto_hide,
            ),
    {
        let mut effects: Vec<Effect> = Vec::new();
        effects.push(Effect::HideHover);
        let top_row: u32 = scroll_anchor.top_row(anchor_row);
        let mut scrolled = self.scroll_manager.set_anchor(
            scroll_anchor,
            top_row,
            local,
            self.workspace_id,
            auto_hide,
        );
        effects.append(&mut scrolled);
        effects
    }

    /// The position to scroll to for a screen-scroll of `lines`.
    /// `top_display_row` is the display row on which the snapshot places the
    /// top anchor. The caller puts the view there with
    /// [`Editor::set_scroll_position`].
    pub fn scroll_screen(&self, lines: i64, top_display_row: u32) -> (target: Vector2)
        ensures
            target == screen_scrolled(self.scroll_manager@.anchor.position(top_display_row), lines),
    {
        let current = self.scroll_manager.scroll_position(top_display_row);
        Vector2 { x: current.x, y: advance_less_one(current.y, lines) }
    }

    /// Says where the head of the newest selection is, seen from the screen.
    /// `screen_top` is where the snapshot places the top anchor.
    pub fn newest_selection_on_screen(
        &self,
        newest_head: DisplayPoint,
        screen_top: DisplayPoint,
    ) -> (side: Ordering)
        ensures
            side == side_of_screen(newest_head, screen_top, self.scroll_manager@.visible_line_count),
    {
        if screen_top.is_after(&newest_head) {
            return Ordering::Less;
        }
        if let Some(visible_lines) = self.scroll_manager.visible_line_count() {
            if newest_head.is_within_rows(&screen_top, count_whole_units(visible_lines)) {
                return Ordering::Equal;
            }
        }
        Ordering::Greater
    }

    /// Restores the scroll position that the store holds for this view.
    /// `located` is the snapshot's answer to `restore_query(stored)`; it is
    /// not read where that query is `None`.
    ///
    /// A stored position puts the view at the anchor found, with the stored
    /// offset. Without one, or where the store could not be read, the view
    /// stays where it is and the host has nothing to do.
    pub fn read_scroll_position_from_db<E>(
        &mut self,
        stored: &Result<Option<SavedScroll>, E>,
        located: Located<A>,
        auto_hide: ScrollbarAutoHide,
    ) -> (effects: Vec<Effect>)
        ensures
            final(self).workspace_id == old(self).workspace_id,
            stored matches Ok(Some(saved)) ==> {
                let scroll_anchor = ScrollAnchor { offset: saved.offset, top_anchor: located.anchor };
                &&& final(self).scroll_manager@ == old(self).scroll_manager@.with_anchor(
                    scroll_anchor,
                    auto_hide,
                )
                &&& effects@ == seq![Effect::HideHover] + old(self).scroll_manager@.anchor_effects(
                    scroll_anchor,
                    scroll_anchor.buffer_row(located.buffer_row),
                    true,
                    old(self).workspace_id,
                    auto_hide,
                )
            },
            !(stored matches Ok(Some(_))) ==> {
                &&& final(self).scroll_manager@ == old(self).scroll_manager@
                &&& effects@ == Seq::<Effect>::empty()
            },
    {
        match stored {
            Ok(Some(saved)) => {
                let scroll_anchor = ScrollAnchor {
                    offset: saved.offset,
                    top_anchor: located.anchor,
                };
                self.set_scroll_anchor(scroll_anchor, located.buffer_row, auto_hide)
            },
            _ => Vec::new(),
        }
    }
}

} // verus!
