//! The scrollbar: shown on every scroll, hidden again by a timer.
//!
//! The timer itself runs in the host. Each timer that is started carries a
//! token, and the scrollbar remembers the token of the one timer that may
//! still hide it. A timer that fires after a later one was started, or after
//! it was cancelled, finds another token or none, and changes nothing.

use vstd::prelude::*;
use crate::effects::Effect;

verus! {

/// The scrollbar stays visible for this many nanoseconds after it was last
/// shown, where it hides by itself at all.
pub const SCROLLBAR_SHOW_INTERVAL: u64 = 1_000_000_000;

/// The setting that says whether scrollbars hide by themselves. It is read
/// each time a scrollbar is shown.
#[derive(Clone, Copy, Debug, PartialEq, Eq, Structural)]
pub struct ScrollbarAutoHide(pub bool);

impl Default for ScrollbarAutoHide {
    fn default() -> (setting: Self)
        ensures
            setting == ScrollbarAutoHide(false),
    {
        ScrollbarAutoHide(false)
    }
}

/// Whether the scrollbar is to be seen, and, while it is, the token of the
/// timer that will hide it, if one is pending.
#[derive(Clone, Copy, Debug, PartialEq, Eq, Structural)]
pub enum ScrollbarState {
    Hidden,
    Visible { timer: Option<u64> },
}

/// The scrollbar of one view.
#[derive(Clone, Copy, Debug, PartialEq, Eq, Structural)]
pub struct Scrollbar {
    pub state: ScrollbarState,
    /// The token that the next timer will carry.
    pub next_token: u64,
}

/// The token after `token`; after the last one the first comes again.
pub open spec fn token_after(token: u64) -> u64 {
    if token == u64::MAX {
        0
    } else {
        (token + 1) as u64
    }
}

impl Scrollbar {
    /// A scrollbar that is visible, with no timer pending.
    pub open spec fn spec_new() -> Scrollbar {
        Scrollbar { state: ScrollbarState::Visible { timer: None }, next_token: 0 }
    }

    pub open spec fn spec_visible(&self) -> bool {
        self.state is Visible
    }

    /// Whether the timer with this token is the one that may hide the
    /// scrollbar.
    pub open spec fn awaits(self, token: u64) -> bool {
        self.state == (ScrollbarState::Visible { timer: Some(token) })
    }

    /// The scrollbar after it was shown: visible, and with a new timer
    /// pending where scrollbars hide by themselves, with none where they do
    /// not.
    pub open spec fn shown(self, auto_hide: ScrollbarAutoHide) -> Scrollbar {
        if auto_hide.0 {
            Scrollbar {
                state: ScrollbarState::Visible { timer: Some(self.next_token) },
                next_token: token_after(self.next_token),
            }
        } else {
            Scrollbar { state: ScrollbarState::Visible { timer: None }, next_token: self.next_token }
        }
    }

    /// What the host does when the scrollbar is shown: draw again if it was
    /// hidden, then start the new timer or drop the old one.
    pub open spec fn show_effects(self, auto_hide: ScrollbarAutoHide) -> Seq<Effect> {
        let redraw = if self.state is Hidden {
            seq![Effect::Redraw]
        } else {
            Seq::<Effect>::empty()
        };
        let timer = if auto_hide.0 {
            Effect::StartHideTimer { token: self.next_token, delay: SCROLLBAR_SHOW_INTERVAL }
        } else {
            Effect::CancelHideTimer
        };
        redraw.push(timer)
    }

    /// The scrollbar after the timer with this token has fired: hidden if it
    /// was the pending one, unchanged if not.
    pub open spec fn fired(self, token: u64) -> Scrollbar {
        if self.awaits(token) {
            Scrollbar { state: ScrollbarState::Hidden, next_token: self.next_token }
        } else {
            self
        }
    }

    /// What the host does when a timer has fired: draw again if the
    /// scrollbar went away, else nothing.
    pub open spec fn fire_effects(self, token: u64) -> Seq<Effect> {
        if self.awaits(token) {
            seq![Effect::Redraw]
        } else {
            Seq::<Effect>::empty()
        }
    }

    #[verifier::when_used_as_spec(spec_new)]
    pub fn new() -> (bar: Scrollbar)
        ensures
            bar == Scrollbar::spec_new(),
    {
        Scrollbar { state: ScrollbarState::Visible { timer: None }, next_token: 0 }
    }

    #[verifier::when_used_as_spec(spec_visible)]
    pub fn visible(&self) -> (yes: bool)
        ensures
            yes == self.spec_visible(),
    {
        match self.state {
            ScrollbarState::Hidden => false,
            ScrollbarState::Visible { .. } => true,
        }
    }

    /// Shows the scrollbar and adds to `effects` what the host has to do.
    pub fn show(&mut self, auto_hide: ScrollbarAutoHide, effects: &mut Vec<Effect>)
        ensures
            *final(self) == old(self).shown(auto_hide),
            final(effects)@ == old(effects)@ + old(self).show_effects(auto_hide),
    {
        if !self.visible() {
            effects.push(Effect::Redraw);
        }
        if auto_hide.0 {
            let token: u64 = self.next_token;
            self.state = ScrollbarState::Visible { timer: Some(token) };
            self.next_token = token.wrapping_add(1);
            effects.push(Effect::StartHideTimer { token, delay: SCROLLBAR_SHOW_INTERVAL });
        } else {
            self.state = ScrollbarState::Visible { timer: None };
            effects.push(Effect::CancelHideTimer);
        }
    }

    /// Takes note that the timer with this token has fired, and adds to
    /// `effects` what the host has to do.
    pub fn timer_fired(&mut self, token: u64, effects: &mut Vec<Effect>)
        ensures
            *final(self) == old(self).fired(token),
            final(effects)@ == old(effects)@ + old(self).fire_effects(token),
    {
        let pending = match self.state {
            ScrollbarState::Visible { timer: Some(pending) } => pending == token,
            _ => false,
        };
        if pending {
            self.state = ScrollbarState::Hidden;
            effects.push(Effect::Redraw);
        }
    }
}

/// The scrollbar after it was shown once for each of the settings, in their
/// order.
pub open spec fn shown_each(bar: Scrollbar, settings: Seq<ScrollbarAutoHide>) -> Scrollbar
    decreases settings.len(),
{
    if settings.len() == 0 {
        bar
    } else {
        shown_each(bar, settings.drop_last()).shown(settings.last())
    }
}

/// The token that comes `steps` tokens after `token`.
spec fn token_later(token: u64, steps: nat) -> u64 {
    ((token + steps) % 0x1_0000_0000_0000_0000) as u64
}

/// While a scrollbar is shown again and again, the number of timers started
/// since the one with `token` tells both the pending token and the next.
proof fn lemma_tokens_advance(first: Scrollbar, token: u64, settings: Seq<ScrollbarAutoHide>) -> (started: nat)
    requires
        first.awaits(token),
        first.next_token == token_after(token),
    ensures
        started <= settings.len(),
        settings.len() > 0 ==> (shown_each(first, settings).state matches ScrollbarState::Visible {
            timer: Some(_),
        } ==> started >= 1),
        shown_each(first, settings).next_token == token_later(token, started + 1),
        shown_each(first, settings).state is Visible,
        shown_each(first, settings).state matches ScrollbarState::Visible { timer: Some(pending) }
            ==> pending == token_later(token, started),
    decreases settings.len(),
{
    if settings.len() == 0 {
        0
    } else {
        let before = lemma_tokens_advance(first, token, settings.drop_last());
        if settings.last().0 {
            before + 1
        } else {
            before
        }
    }
}

/// A timer fires in vain unless it is the pending one: the scrollbar stays
/// as it is and the host has nothing to do.
pub proof fn lemma_stale_timer_changes_nothing(bar: Scrollbar, token: u64)
    requires
        !bar.awaits(token),
    ensures
        bar.fired(token) == bar,
        bar.fire_effects(token) == Seq::<Effect>::empty(),
{
}

/// The pending timer hides the scrollbar when it fires, and the host draws
/// the view again. Nothing is pending after that.
pub proof fn lemma_pending_timer_hides(bar: Scrollbar, token: u64)
    requires
        bar.awaits(token),
    ensures
        bar.fired(token).state is Hidden,
        bar.fire_effects(token) == seq![Effect::Redraw],
        forall|other: u64| !bar.fired(token).awaits(other),
{
}

/// Of two timers started one right after the other, only the second hides
/// the scrollbar: they carry different tokens, the first fires in vain, and
/// the second hides the scrollbar when it fires.
pub proof fn lemma_second_timer_supersedes_first(bar: Scrollbar)
    ensures
        ({
            let once = bar.shown(ScrollbarAutoHide(true));
            let twice = once.shown(ScrollbarAutoHide(true));
            &&& once.awaits(bar.next_token)
            &&& twice.awaits(once.next_token)
            &&& bar.next_token != once.next_token
            &&& twice.fired(bar.next_token) == twice
            &&& twice.fire_effects(bar.next_token) == Seq::<Effect>::empty()
            &&& twice.spec_visible()
            &&& twice.fired(once.next_token).state is Hidden
        }),
{
}

/// A timer is stale as soon as the scrollbar is shown again, however often
/// and under whatever settings: once the scrollbar has been shown at least
/// once more, and fewer than 2^64 times, the timer fires in vain.
pub proof fn lemma_shown_again_makes_timer_stale(bar: Scrollbar, settings: Seq<ScrollbarAutoHide>)
    requires
        0 < settings.len() < 0x1_0000_0000_0000_0000,
    ensures
        ({
            let started = bar.shown(ScrollbarAutoHide(true));
            let later = shown_each(started, settings);
            &&& started.awaits(bar.next_token)
            &&& later.spec_visible()
            &&& !later.awaits(bar.next_token)
            &&& later.fired(bar.next_token) == later
        }),
{
    let started = bar.shown(ScrollbarAutoHide(true));
    let count = lemma_tokens_advance(started, bar.next_token, settings);
    assert(count >= 1 && count < 0x1_0000_0000_0000_0000 ==> token_later(bar.next_token, count)
        != bar.next_token);
}

/// Where scrollbars do not hide by themselves, showing the scrollbar leaves
/// no timer pending: whichever timer fires afterwards, the scrollbar stays.
pub proof fn lemma_shown_without_auto_hide_stays(bar: Scrollbar, token: u64)
    ensures
        bar.shown(ScrollbarAutoHide(false)).spec_visible(),
        bar.shown(ScrollbarAutoHide(false)).fired(token) == bar.shown(ScrollbarAutoHide(false)),
{
}

} // verus!
