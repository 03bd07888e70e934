//! The scroll manager: all scroll state of one view, and every change to it.
//!
//! The manager owns the anchor of the view, the state of the scroll gesture
//! in progress, the autoscroll request that awaits the next layout, and the
//! scrollbar. Its state is described by [`ManagerState`]; every operation
//! says which state follows and which effects the host has to carry out.

use vstd::prelude::*;
use crate::anchor::{Anchor, Located, ScrollAnchor};
use crate::effects::{Effect, SavedScroll};
use crate::geometry::Vector2;
use crate::ongoing::{Axis, OngoingScroll};
use crate::scrollbar::{Scrollbar, ScrollbarAutoHide};

verus! {

/// Rows kept visible above and below the cursor, unless the host sets
/// another number.
pub const DEFAULT_VERTICAL_SCROLL_MARGIN: usize = 3;

/// What the last autoscroll that was applied looked like: the offset it left
/// the view at, the rows it kept in view, and the strategy it followed.
#[derive(Clone, Copy, Debug, PartialEq, Eq)]
pub struct AutoscrollRecord<S> {
    pub offset: Vector2,
    pub target_top: i64,
    pub target_bottom: i64,
    pub strategy: S,
}

/// The scroll state of one view.
pub struct ManagerState<A, S> {
    /// Rows kept visible above and below the cursor.
    pub vertical_scroll_margin: usize,
    /// Where the top of the view is.
    pub anchor: ScrollAnchor<A>,
    /// The scroll gesture in progress.
    pub ongoing: OngoingScroll,
    /// The autoscroll asked for since the last layout, with the flag that
    /// says whether it came from this view's own user.
    pub autoscroll_request: Option<(S, bool)>,
    /// What the layout noted of the autoscroll it applied last. It is
    /// forgotten whenever an anchor is set.
    pub last_autoscroll: Option<AutoscrollRecord<S>>,
    /// The scrollbar and the timer that hides it.
    pub scrollbar: Scrollbar,
    /// The number of lines that fit into the view, once a layout has told.
    pub visible_line_count: Option<i64>,
}

/// The scroll manager of one view. See [`ManagerState`] for what it holds.
pub struct ScrollManager<A, S> {
    state: ManagerState<A, S>,
}

impl<A, S> View for ScrollManager<A, S> {
    type V = ManagerState<A, S>;

    closed spec fn view(&self) -> ManagerState<A, S> {
        self.state
    }
}

impl<A: Copy, S: Copy> ManagerState<A, S> {
    /// The state of a new view at clock reading `now`: at the start of the
    /// buffer, scrollbar visible, nothing pending.
    pub open spec fn init(now: u64) -> Self {
        ManagerState {
            vertical_scroll_margin: DEFAULT_VERTICAL_SCROLL_MARGIN,
            anchor: ScrollAnchor::spec_new(),
            ongoing: OngoingScroll::spec_new(now),
            autoscroll_request: None,
            last_autoscroll: None,
            scrollbar: Scrollbar::spec_new(),
            visible_line_count: None,
        }
    }

    /// The state after the anchor was set: the view is at `anchor`, the
    /// scrollbar is shown, and what was pending or remembered of autoscrolls
    /// is gone.
    pub open spec fn with_anchor(self, anchor: ScrollAnchor<A>, auto_hide: ScrollbarAutoHide) -> Self {
        ManagerState {
            anchor,
            autoscroll_request: None,
            last_autoscroll: None,
            scrollbar: self.scrollbar.shown(auto_hide),
            ..self
        }
    }

    /// What the host does after the anchor was set: announce the change,
    /// show the scrollbar, store the position where the view belongs to a
    /// workspace, and draw again.
    pub open spec fn anchor_effects(
        self,
        anchor: ScrollAnchor<A>,
        top_row: u32,
        local: bool,
        workspace_id: Option<i64>,
        auto_hide: ScrollbarAutoHide,
    ) -> Seq<Effect> {
        let announce = seq![Effect::ScrollPositionChanged { local }];
        let save = match workspace_id {
            Some(workspace_id) => seq![
                Effect::SaveScrollPosition {
                    workspace_id,
                    saved: SavedScroll { top_row, offset: anchor.offset },
                },
            ],
            None => Seq::<Effect>::empty(),
        };
        announce + self.scrollbar.show_effects(auto_hide) + save + seq![Effect::Redraw]
    }

    /// The state after the scrollbar was shown.
    pub open spec fn with_scrollbar_shown(self, auto_hide: ScrollbarAutoHide) -> Self {
        ManagerState { scrollbar: self.scrollbar.shown(auto_hide), ..self }
    }

    /// The state after the hide timer with this token has fired.
    pub open spec fn with_timer_fired(self, token: u64) -> Self {
        ManagerState { scrollbar: self.scrollbar.fired(token), ..self }
    }

    /// The state after the horizontal offset was held to at most `max`.
    pub open spec fn clamped_left(self, max: i64) -> Self {
        if max < self.anchor.offset.x {
            ManagerState {
                anchor: ScrollAnchor {
                    offset: Vector2 { x: max, y: self.anchor.offset.y },
                    top_anchor: self.anchor.top_anchor,
                },
                ..self
            }
        } else {
            self
        }
    }

    /// The state after an autoscroll was asked for: it takes the place of
    /// any request that was still pending.
    pub open spec fn with_request(self, strategy: S, local: bool) -> Self {
        ManagerState { autoscroll_request: Some((strategy, local)), ..self }
    }

    /// The state after the layout has resolved the pending request to
    /// `anchor`: as after setting that anchor, or unchanged where nothing
    /// was pending.
    pub open spec fn resolved(self, anchor: ScrollAnchor<A>, auto_hide: ScrollbarAutoHide) -> Self {
        match self.autoscroll_request {
            Some(_) => self.with_anchor(anchor, auto_hide),
            None => self,
        }
    }

    /// What the host does after the layout has resolved the pending request:
    /// as after setting the anchor, with the request's own flag in the
    /// announcement, or nothing where nothing was pending.
    pub open spec fn resolve_effects(
        self,
        anchor: ScrollAnchor<A>,
        top_row: u32,
        workspace_id: Option<i64>,
        auto_hide: ScrollbarAutoHide,
    ) -> Seq<Effect> {
        match self.autoscroll_request {
            Some((_, local)) => self.anchor_effects(anchor, top_row, local, workspace_id, auto_hide),
            None => Seq::<Effect>::empty(),
        }
    }
}

impl<A: Copy, S: Copy> ScrollManager<A, S> {
    /// The manager of a new view. `now` is the reading of the clock.
    pub fn new(now: u64) -> (manager: Self)
        ensures
            manager@ == ManagerState::<A, S>::init(now),
    {
        ScrollManager {
            state: ManagerState {
                vertical_scroll_margin: DEFAULT_VERTICAL_SCROLL_MARGIN,
                anchor: ScrollAnchor::new(),
                ongoing: OngoingScroll::new(now),
                autoscroll_request: None,
                last_autoscroll: None,
                scrollbar: Scrollbar::new(),
                visible_line_count: None,
            },
        }
    }

    /// Takes over the anchor and the gesture of another view, as when a view
    /// is duplicated. What is pending in either view stays where it is.
    pub fn clone_state(&mut self, other: &Self)
        ensures
            final(self)@ == (ManagerState {
                anchor: other@.anchor,
                ongoing: other@.ongoing,
                ..old(self)@
            }),
    {
        self.state.anchor = other.state.anchor;
        self.state.ongoing = other.state.ongoing;
    }

    pub fn anchor(&self) -> (anchor: ScrollAnchor<A>)
        ensures
            anchor == self@.anchor,
    {
        self.state.anchor
    }

    pub fn ongoing_scroll(&self) -> (ongoing: OngoingScroll)
        ensures
            ongoing == self@.ongoing,
    {
        self.state.ongoing
    }

    /// Records the outcome of the filter for the event that arrived at
    /// `now`: the axis it is held to, and its time.
    pub fn update_ongoing_scroll(&mut self, axis: Option<Axis>, now: u64)
        ensures
            final(self)@ == (ManagerState {
                ongoing: OngoingScroll { last_event: now, axis },
                ..old(self)@
            }),
    {
        self.state.ongoing = OngoingScroll { last_event: now, axis };
    }

    /// The position of the view. `top_display_row` is the display row on
    /// which the snapshot places the top anchor.
    pub fn scroll_position(&self, top_display_row: u32) -> (position: Vector2)
        ensures
            position == self@.anchor.position(top_display_row),
    {
        self.state.anchor.scroll_position(top_display_row)
    }

    /// Puts the view at `scroll_position`. `top` is the snapshot's answer to
    /// `ScrollAnchor::top_query(scroll_position)`; it is not read where that
    /// query is `None`.
    ///
    /// A target at or above the first row puts the view at the start of the
    /// buffer, negative components set to zero, and row zero is what is
    /// stored. Any other target is held by the anchor found, with the rest
    /// of the target as offset, and the buffer row found is what is stored.
    pub fn set_scroll_position(
        &mut self,
        scroll_position: Vector2,
        top: Located<A>,
        local: bool,
        workspace_id: Option<i64>,
        auto_hide: ScrollbarAutoHide,
    ) -> (effects: Vec<Effect>)
        ensures
            final(self)@ == old(self)@.with_anchor(
                ScrollAnchor::spec_at(scroll_position, top),
                auto_hide,
            ),
            effects@ == old(self)@.anchor_effects(
                ScrollAnchor::spec_at(scroll_position, top),
                ScrollAnchor::spec_top_row_at(scroll_position, top),
                local,
                workspace_id,
                auto_hide,
            ),
            scroll_position.y <= 0 ==> final(self)@.anchor == (ScrollAnchor {
                offset: scroll_position.spec_max(Vector2 { x: 0, y: 0 }),
                top_anchor: Anchor::<A>::Start,
            }),
    {
        let anchor = ScrollAnchor::at(scroll_position, top);
        let top_row: u32 = if scroll_position.y <= 0 {
            0
        } else {
            top.buffer_row
        };
        self.set_anchor(anchor, top_row, local, workspace_id, auto_hide)
    }

    /// Puts the view at an anchor that the caller has at hand, as when a
    /// position is restored or arrives from a collaborator. `top_row` is the
    /// buffer row of the anchor, for the store.
    pub fn set_anchor(
        &mut self,
        anchor: ScrollAnchor<A>,
        top_row: u32,
        local: bool,
        workspace_id: Option<i64>,
        auto_hide: ScrollbarAutoHide,
    ) -> (effects: Vec<Effect>)
        ensures
            final(self)@ == old(self)@.with_anchor(anchor, auto_hide),
            effects@ == old(self)@.anchor_effects(anchor, top_row, local, workspace_id, auto_hide),
    {
        let mut effects: Vec<Effect> = Vec::new();
        self.state.anchor = anchor;
        effects.push(Effect::ScrollPositionChanged { local });
        self.state.scrollbar.show(auto_hide, &mut effects);
        self.state.autoscroll_request = None;
        self.state.last_autoscroll = None;
        if let Some(workspace_id) = workspace_id {
            effects.push(
                Effect::SaveScrollPosition {
                    workspace_id,
                    saved: SavedScroll { top_row, offset: anchor.offset },
                },
            );
        }
        effects.push(Effect::Redraw);
        assert(effects@ =~= old(self)@.anchor_effects(
            anchor,
            top_row,
            local,
            workspace_id,
            auto_hide,
        ));
        effects
    }

    /// Shows the scrollbar. Where scrollbars hide by themselves, a new timer
    /// takes the place of the pending one; where they do not, the pending
    /// one is dropped and the scrollbar stays.
    pub fn show_scrollbar(&mut self, auto_hide: ScrollbarAutoHide) -> (effects: Vec<Effect>)
        ensures
            final(self)@ == old(self)@.with_scrollbar_shown(auto_hide),
            effects@ == old(self)@.scrollbar.show_effects(auto_hide),
    {
        let mut effects: Vec<Effect> = Vec::new();
        self.state.scrollbar.show(auto_hide, &mut effects);
        assert(effects@ =~= old(self)@.scrollbar.show_effects(auto_hide));
        effects
    }

    /// Takes note that the hide timer with this token has fired. Only the
    /// timer started last hides the scrollbar; any other changes nothing.
    pub fn hide_timer_fired(&mut self, token: u64) -> (effects: Vec<Effect>)
        ensures
            final(self)@ == old(self)@.with_timer_fired(token),
            effects@ == old(self)@.scrollbar.fire_effects(token),
    {
        let mut effects: Vec<Effect> = Vec::new();
        self.state.scrollbar.timer_fired(token, &mut effects);
        assert(effects@ =~= old(self)@.scrollbar.fire_effects(token));
        effects
    }

    pub fn scrollbars_visible(&self) -> (visible: bool)
        ensures
            visible == self@.scrollbar.spec_visible(),
    {
        self.state.scrollbar.visible()
    }

    pub fn has_autoscroll_request(&self) -> (pending: bool)
        ensures
            pending == self@.autoscroll_request.is_some(),
    {
        self.state.autoscroll_request.is_some()
    }

    /// Holds the horizontal offset to at most `max`, and says whether that
    /// changed it.
    pub fn clamp_scroll_left(&mut self, max: i64) -> (changed: bool)
        ensures
            changed == (max < old(self)@.anchor.offset.x),
            final(self)@ == old(self)@.clamped_left(max),
            !changed ==> final(self)@ == old(self)@,
            changed ==> final(self)@.anchor.offset.x == max,
    {
        if max < self.state.anchor.offset.x {
            self.state.anchor.offset.x = max;
            true
        } else {
            false
        }
    }

    /// Asks for an autoscroll at the next layout. A request still pending is
    /// replaced.
    pub fn request_autoscroll(&mut self, strategy: S, local: bool)
        ensures
            final(self)@ == old(self)@.with_request(strategy, local),
    {
        self.state.autoscroll_request = Some((strategy, local));
    }

    /// The pending autoscroll request, for the layout to resolve.
    pub fn autoscroll_request(&self) -> (request: Option<(S, bool)>)
        ensures
            request == self@.autoscroll_request,
    {
        self.state.autoscroll_request
    }

    /// Hands out the pending autoscroll request and forgets it.
    pub fn take_autoscroll_request(&mut self) -> (request: Option<(S, bool)>)
        ensures
            request == old(self)@.autoscroll_request,
            final(self)@ == (ManagerState { autoscroll_request: None, ..old(self)@ }),
    {
        self.state.autoscroll_request.take()
    }

    /// Applies what the layout made of the pending autoscroll request: the
    /// anchor at which the strategy wants the view, with its buffer row.
    /// Without a pending request nothing happens.
    pub fn resolve_autoscroll(
        &mut self,
        anchor: ScrollAnchor<A>,
        top_row: u32,
        workspace_id: Option<i64>,
        auto_hide: ScrollbarAutoHide,
    ) -> (effects: Vec<Effect>)
        ensures
            final(self)@ == old(self)@.resolved(anchor, auto_hide),
            effects@ == old(self)@.resolve_effects(anchor, top_row, workspace_id, auto_hide),
    {
        match self.state.autoscroll_request {
            Some((_, local)) => self.set_anchor(anchor, top_row, local, workspace_id, auto_hide),
            None => Vec::new(),
        }
    }

    pub fn last_autoscroll(&self) -> (record: Option<AutoscrollRecord<S>>)
        ensures
            record == self@.last_autoscroll,
    {
        self.state.last_autoscroll
    }

    /// Remembers the autoscroll that was just applied.
    pub fn set_last_autoscroll(&mut self, record: Option<AutoscrollRecord<S>>)
        ensures
            final(self)@ == (ManagerState { last_autoscroll: record, ..old(self)@ }),
    {
        self.state.last_autoscroll = record;
    }

    pub fn vertical_scroll_margin(&self) -> (rows: usize)
        ensures
            rows == self@.vertical_scroll_margin,
    {
        self.state.vertical_scroll_margin
    }

    pub fn set_vertical_scroll_margin(&mut self, rows: usize)
        ensures
            final(self)@ == (ManagerState { vertical_scroll_margin: rows, ..old(self)@ }),
    {
        self.state.vertical_scroll_margin = rows;
    }

    pub fn visible_line_count(&self) -> (lines: Option<i64>)
        ensures
            lines == self@.visible_line_count,
    {
        self.state.visible_line_count
    }

    pub fn set_visible_line_count(&mut self, lines: i64)
        ensures
            final(self)@ == (ManagerState { visible_line_count: Some(lines), ..old(self)@ }),
    {
        self.state.visible_line_count = Some(lines);
    }
}

/// After the view was put at a position below the first row, its position
/// under the snapshot that placed it is that position, exactly.
///
/// The snapshot's answer must name an anchor of the text, or else place the
/// start of the buffer on the first display row.
pub proof fn lemma_scroll_position_round_trip<A: Copy, S: Copy>(
    state: ManagerState<A, S>,
    position: Vector2,
    top: Located<A>,
    auto_hide: ScrollbarAutoHide,
)
    requires
        position.y > 0,
        top.anchor is At || top.display_row == 0,
    ensures
        state.with_anchor(ScrollAnchor::spec_at(position, top), auto_hide).anchor.position(
            top.display_row,
        ) == position,
{
}

/// After the view was put at a position at or above the first row, it is at
/// the start of the buffer, with the horizontal target as offset where that
/// is not negative, and its vertical position is zero under every snapshot.
pub proof fn lemma_scroll_to_top<A: Copy, S: Copy>(
    state: ManagerState<A, S>,
    position: Vector2,
    top: Located<A>,
    auto_hide: ScrollbarAutoHide,
    row: u32,
)
    requires
        position.y <= 0,
    ensures
        ({
            let anchor = state.with_anchor(ScrollAnchor::spec_at(position, top), auto_hide).anchor;
            &&& anchor.top_anchor is Start
            &&& anchor.offset.y == 0
            &&& anchor.offset.x == (if position.x >= 0 {
                position.x
            } else {
                0
            })
            &&& anchor.position(row).y == 0
        }),
{
}

/// Once the pending request is resolved, a second resolution finds nothing
/// pending: it leaves the state as the first left it, the anchor with it,
/// and asks nothing of the host.
pub proof fn lemma_second_resolution_changes_nothing<A: Copy, S: Copy>(
    state: ManagerState<A, S>,
    first: ScrollAnchor<A>,
    second: ScrollAnchor<A>,
    top_row: u32,
    workspace_id: Option<i64>,
    auto_hide: ScrollbarAutoHide,
)
    ensures
        state.resolved(first, auto_hide).autoscroll_request is None,
        state.resolved(first, auto_hide).resolved(second, auto_hide) == state.resolved(
            first,
            auto_hide,
        ),
        state.resolved(first, auto_hide).resolve_effects(second, top_row, workspace_id, auto_hide)
            == Seq::<Effect>::empty(),
{
}

/// A request that is made again and resolved to the same anchor leaves the
/// view where the first resolution put it.
pub proof fn lemma_repeated_resolution_keeps_anchor<A: Copy, S: Copy>(
    state: ManagerState<A, S>,
    strategy: S,
    local: bool,
    anchor: ScrollAnchor<A>,
    auto_hide: ScrollbarAutoHide,
)
    ensures
        ({
            let once = state.with_request(strategy, local).resolved(anchor, auto_hide);
            let twice = once.with_request(strategy, local).resolved(anchor, auto_hide);
            &&& once.anchor == anchor
            &&& twice.anchor == once.anchor
            &&& twice.autoscroll_request is None
        }),
{
}

/// Setting a scroll position clears what is pending or remembered of
/// autoscrolls, whatever the position.
pub proof fn lemma_set_anchor_clears_autoscroll<A: Copy, S: Copy>(
    state: ManagerState<A, S>,
    anchor: ScrollAnchor<A>,
    auto_hide: ScrollbarAutoHide,
)
    ensures
        state.with_anchor(anchor, auto_hide).anchor == anchor,
        state.with_anchor(anchor, auto_hide).autoscroll_request is None,
        state.with_anchor(anchor, auto_hide).last_autoscroll is None,
        state.with_anchor(anchor, auto_hide).scrollbar.spec_visible(),
{
}

} // verus!
