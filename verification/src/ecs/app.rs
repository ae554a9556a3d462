//! Application-wide bookkeeping: how many windows are open, which window
//! receives the quit notification, and whether the display configuration
//! changed.

use bevy_ecs::entity::Entity;
use vstd::prelude::*;

verus! {

/// The application resource's contents.
pub struct AppView {
    pub window_count: nat,
    pub message_window: Option<isize>,
    pub display_configuration_changed: bool,
}

/// Application-wide state.
pub struct App {
    window_count: usize,
    message_window: Option<isize>,
    display_configuration_changed: bool,
}

impl View for App {
    type V = AppView;

    closed spec fn view(&self) -> AppView {
        AppView {
            window_count: self.window_count as nat,
            message_window: self.message_window,
            display_configuration_changed: self.display_configuration_changed,
        }
    }
}

/// Contents after a window is created.
pub open spec fn window_created(v: AppView) -> AppView {
    AppView { window_count: v.window_count + 1, ..v }
}

/// Contents after a window is destroyed (the count does not go below zero).
pub open spec fn window_destroyed(v: AppView) -> AppView {
    AppView {
        window_count: if v.window_count == 0 { 0 } else { (v.window_count - 1) as nat },
        ..v
    }
}

impl Default for App {
    /// No window, no message window, no display change.
    fn default() -> (a: Self)
        ensures
            a@.window_count == 0,
            a@.message_window is None,
            !a@.display_configuration_changed,
    {
        App { window_count: 0, message_window: None, display_configuration_changed: false }
    }
}

impl App {
    /// No window, no message window, no display change.
    pub fn new() -> (a: Self)
        ensures
            a@.window_count == 0,
            a@.message_window is None,
            !a@.display_configuration_changed,
    {
        Self::default()
    }

    /// Records the raw handle of the window that is notified when the last
    /// window closes.
    pub fn set_message_window(&mut self, hwnd: isize)
        ensures
            final(self)@ == (AppView { message_window: Some(hwnd), ..old(self)@ }),
    {
        self.message_window = Some(hwnd);
    }

    /// The raw handle of the window notified when the last window closes.
    pub fn message_window(&self) -> (h: Option<isize>)
        ensures
            h == self@.message_window,
    {
        self.message_window
    }

    /// Marks that the display configuration changed.
    pub fn mark_display_change(&mut self)
        ensures
            final(self)@ == (AppView { display_configuration_changed: true, ..old(self)@ }),
    {
        self.display_configuration_changed = true;
    }

    /// Clears the display-change mark.
    pub fn reset_display_change(&mut self)
        ensures
            final(self)@ == (AppView { display_configuration_changed: false, ..old(self)@ }),
    {
        self.display_configuration_changed = false;
    }

    /// Whether the display configuration changed.
    pub fn display_configuration_changed(&self) -> (b: bool)
        ensures
            b == self@.display_configuration_changed,
    {
        self.display_configuration_changed
    }

    /// A window was created.
    pub fn on_window_created(&mut self, entity: Entity)
        requires
            old(self)@.window_count < usize::MAX,
        ensures
            final(self)@ == window_created(old(self)@),
    {
        self.window_count = self.window_count + 1;
    }

    /// A window was destroyed. Returns whether it was the last one, in which
    /// case the application should quit (the caller notifies the message
    /// window).
    pub fn on_window_destroyed(&mut self, entity: Entity) -> (last: bool)
        ensures
            final(self)@ == window_destroyed(old(self)@),
            last == (final(self)@.window_count == 0),
    {
        self.window_count = self.window_count.saturating_sub(1);
        self.window_count == 0
    }

    /// The number of open windows.
    pub fn window_count(&self) -> (n: usize)
        ensures
            n == self@.window_count,
    {
        self.window_count
    }
}

/// Applies `k` window creations.
pub open spec fn created_n(v: AppView, k: nat) -> AppView
    decreases k,
{
    if k == 0 {
        v
    } else {
        window_created(created_n(v, (k - 1) as nat))
    }
}

/// Applies `k` window destructions.
pub open spec fn destroyed_n(v: AppView, k: nat) -> AppView
    decreases k,
{
    if k == 0 {
        v
    } else {
        window_destroyed(destroyed_n(v, (k - 1) as nat))
    }
}

/// Creations add to the count and destructions take from it, never below
/// zero; the other fields are untouched.
pub proof fn lemma_counts(v: AppView, k: nat)
    ensures
        created_n(v, k).window_count == v.window_count + k,
        destroyed_n(v, k).window_count == if k <= v.window_count {
            (v.window_count - k) as nat
        } else {
            0
        },
        created_n(v, k).message_window == v.message_window,
        destroyed_n(v, k).message_window == v.message_window,
    decreases k,
{
    if k > 0 {
        lemma_counts(v, (k - 1) as nat);
    }
}

/// Starting without windows, after `k > 0` windows are created and then
/// destroyed one by one, only the last destruction reports the last window
/// closed.
pub proof fn lemma_only_last_close_quits(v: AppView, k: nat, j: nat)
    requires
        v.window_count == 0,
        k > 0,
        j < k,
    ensures
        destroyed_n(created_n(v, k), j).window_count != 0,
        window_destroyed(destroyed_n(created_n(v, k), j)).window_count == 0 <==> j + 1 == k,
{
    lemma_counts(v, k);
    lemma_counts(created_n(v, k), j);
}

} // verus!
