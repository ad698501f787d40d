//! Splitting the compositor's coarse "window opened or changed" event into
//! opened / floating toggled / changed, by tracking the windows already seen.
use std::collections::{HashMap, HashSet};
use vstd::prelude::*;
use crate::window::{NiriEvent, PiriEvent, Window};

verus! {

broadcast use vstd::std_specs::hash::group_hash_axioms;

/// What a "window opened or changed" event means for a tracked window state.
#[derive(Debug, PartialEq, Eq, Structural)]
pub enum WindowChangeKind {
    /// The window had not been seen.
    Opened,
    /// The window was seen with the other floating state.
    ToggleFloating,
    /// The window was seen with the same floating state.
    Changed,
}

/// Classification of an event for window `id` with floating state `floating`.
pub open spec fn classify(state: Map<u64, bool>, id: u64, floating: bool) -> WindowChangeKind {
    if !state.contains_key(id) {
        WindowChangeKind::Opened
    } else if state[id] != floating {
        WindowChangeKind::ToggleFloating
    } else {
        WindowChangeKind::Changed
    }
}

/// The tracked state rebuilt from a full window list: each id with its floating state
/// (a later entry for the same id wins).
pub open spec fn state_of_windows(windows: Seq<Window>) -> Map<u64, bool>
    decreases windows.len(),
{
    if windows.len() == 0 {
        Map::empty()
    } else {
        state_of_windows(windows.drop_last()).insert(windows.last().id, windows.last().is_floating)
    }
}

/// The sub-event a window event becomes under a classification.
pub open spec fn split_event(kind: WindowChangeKind, window: Window) -> PiriEvent {
    match kind {
        WindowChangeKind::Opened => PiriEvent::WindowOpened { window },
        WindowChangeKind::ToggleFloating => PiriEvent::WindowToggleFloating { window },
        WindowChangeKind::Changed => PiriEvent::WindowChanged { window },
    }
}

/// Tracks previous window state to classify "opened or changed" events into sub-events.
pub struct EventNormalizer {
    seen_windows: HashSet<u64>,
    window_floating_state: HashMap<u64, bool>,
}

impl EventNormalizer {
    /// Both records name the same windows.
    pub closed spec fn wf(&self) -> bool {
        self.seen_windows@ == self.window_floating_state@.dom()
    }

    /// Known windows with their last recorded floating state.
    pub closed spec fn known(&self) -> Map<u64, bool> {
        self.window_floating_state@
    }

    /// A normalizer that knows no window.
    pub fn new() -> (r: Self)
        ensures
            r.wf(),
            r.known() == Map::<u64, bool>::empty(),
    {
        let r = EventNormalizer { seen_windows: HashSet::new(), window_floating_state: HashMap::new() };
        assert(r.seen_windows@ =~= r.window_floating_state@.dom());
        r
    }

    /// Classify an "opened or changed" event for window `id` and record its floating state.
    pub fn classify_window_event(&mut self, id: u64, is_floating: bool) -> (r: WindowChangeKind)
        requires
            old(self).wf(),
        ensures
            final(self).wf(),
            r == classify(old(self).known(), id, is_floating),
            final(self).known() == old(self).known().insert(id, is_floating),
    {
        if !self.seen_windows.contains(&id) {
            self.seen_windows.insert(id);
            self.window_floating_state.insert(id, is_floating);
            assert(self.seen_windows@ =~= self.window_floating_state@.dom());
            return WindowChangeKind::Opened;
        }
        let prev_floating = match self.window_floating_state.get(&id) {
            Some(f) => *f,
            None => false,
        };
        if prev_floating != is_floating {
            self.window_floating_state.insert(id, is_floating);
            assert(self.seen_windows@ =~= self.window_floating_state@.dom());
            return WindowChangeKind::ToggleFloating;
        }
        assert(self.window_floating_state@ =~= self.window_floating_state@.insert(id, is_floating));
        WindowChangeKind::Changed
    }

    /// Forget a closed window.
    pub fn on_window_closed(&mut self, id: u64)
        requires
            old(self).wf(),
        ensures
            final(self).wf(),
            final(self).known() == old(self).known().remove(id),
    {
        self.seen_windows.remove(&id);
        self.window_floating_state.remove(&id);
        assert(self.seen_windows@ =~= self.window_floating_state@.dom());
    }

    /// Replace the tracked state with the given full window list.
    pub fn rebuild_from_piri_windows(&mut self, windows: &[Window])
        requires
            old(self).wf(),
        ensures
            final(self).wf(),
            final(self).known() == state_of_windows(windows@),
    {
        self.seen_windows.clear();
        self.window_floating_state.clear();
        assert(self.seen_windows@ =~= self.window_floating_state@.dom());
        let n = windows.len();
        let mut i: usize = 0;
        while i < n
            invariant
                n == windows@.len(),
                0 <= i <= n,
                self.seen_windows@ == self.window_floating_state@.dom(),
                self.window_floating_state@ == state_of_windows(windows@.subrange(0, i as int)),
            decreases n - i,
        {
            let w = &windows[i];
            self.seen_windows.insert(w.id);
            self.window_floating_state.insert(w.id, w.is_floating);
            proof {
                let pre = windows@.subrange(0, i as int + 1);
                assert(pre.drop_last() =~= windows@.subrange(0, i as int));
            }
            assert(self.seen_windows@ =~= self.window_floating_state@.dom());
            i = i + 1;
        }
        assert(windows@.subrange(0, n as int) =~= windows@);
    }

    /// Convert a compositor event into zero or one plugin event, updating the tracked state.
    pub fn normalize_event(&mut self, event: NiriEvent) -> (r: Vec<PiriEvent>)
        requires
            old(self).wf(),
        ensures
            final(self).wf(),
            match event {
                NiriEvent::WindowOpenedOrChanged { window } => {
                    &&& final(self).known() == old(self).known().insert(window.id, window.is_floating)
                    &&& r@ == seq![split_event(classify(old(self).known(), window.id, window.is_floating), window)]
                },
                NiriEvent::WindowClosed { id } => {
                    &&& final(self).known() == old(self).known().remove(id)
                    &&& r@ == seq![PiriEvent::WindowClosed { id }]
                },
                NiriEvent::WindowsChanged { windows } => {
                    &&& final(self).known() == state_of_windows(windows@)
                    &&& r@ == seq![PiriEvent::WindowsChanged { windows }]
                },
                _ => final(self).known() == old(self).known() && r@ == passthrough(event),
            },
    {
        let mut out: Vec<PiriEvent> = Vec::new();
        match event {
            NiriEvent::WindowOpenedOrChanged { window } => {
                let kind = self.classify_window_event(window.id, window.is_floating);
                let e = match kind {
                    WindowChangeKind::Opened => PiriEvent::WindowOpened { window },
                    WindowChangeKind::ToggleFloating => PiriEvent::WindowToggleFloating { window },
                    WindowChangeKind::Changed => PiriEvent::WindowChanged { window },
                };
                out.push(e);
            },
            NiriEvent::WindowClosed { id } => {
                self.on_window_closed(id);
                out.push(PiriEvent::WindowClosed { id });
            },
            NiriEvent::WindowsChanged { windows } => {
                self.rebuild_from_piri_windows(windows.as_slice());
                out.push(PiriEvent::WindowsChanged { windows });
            },
            NiriEvent::WorkspacesChanged => out.push(PiriEvent::WorkspacesChanged),
            NiriEvent::WorkspaceActivated { id, focused } => out.push(
                PiriEvent::WorkspaceActivated { id, focused },
            ),
            NiriEvent::WorkspaceActiveWindowChanged { workspace_id, active_window_id } => out.push(
                PiriEvent::WorkspaceActiveWindowChanged { workspace_id, active_window_id },
            ),
            NiriEvent::WindowFocusChanged { id } => out.push(PiriEvent::WindowFocusChanged { id }),
            NiriEvent::WindowLayoutsChanged => out.push(PiriEvent::WindowLayoutsChanged),
            NiriEvent::WindowFocusTimestampChanged { id } => out.push(
                PiriEvent::WindowFocusTimestampChanged { id },
            ),
            NiriEvent::WindowUrgencyChanged { id, urgent } => out.push(
                PiriEvent::WindowUrgencyChanged { id, urgent },
            ),
            NiriEvent::KeyboardLayoutsChanged => out.push(PiriEvent::KeyboardLayoutsChanged),
            NiriEvent::KeyboardLayoutSwitched { idx } => out.push(
                PiriEvent::KeyboardLayoutSwitched { idx },
            ),
            NiriEvent::ConfigLoaded { failed } => out.push(PiriEvent::ConfigLoaded { failed }),
            NiriEvent::WorkspaceUrgencyChanged => {},
            NiriEvent::OverviewOpenedOrClosed => {},
            NiriEvent::ScreenshotCaptured => {},
            NiriEvent::CastsChanged => {},
            NiriEvent::CastStartedOrChanged => {},
            NiriEvent::CastStopped => {},
        }
        out
    }
}

/// A window seen for the first time is reported opened; reported again with the same
/// floating state it is changed, with the other state it toggled floating.
pub proof fn law_first_sight(known: Map<u64, bool>, id: u64, floating: bool)
    requires
        !known.contains_key(id),
    ensures
        classify(known, id, floating) == WindowChangeKind::Opened,
        classify(known.insert(id, floating), id, floating) == WindowChangeKind::Changed,
        classify(known.insert(id, floating), id, !floating) == WindowChangeKind::ToggleFloating,
{
}

/// A closed window that shows up again is reported opened again.
pub proof fn law_reopened_after_close(known: Map<u64, bool>, id: u64, floating: bool)
    ensures
        classify(known.remove(id), id, floating) == WindowChangeKind::Opened,
{
}

/// After seeding from a full window list, no listed window is reported opened.
pub proof fn law_seeded_windows_not_opened(windows: Seq<Window>, i: int, floating: bool)
    requires
        0 <= i < windows.len(),
    ensures
        classify(state_of_windows(windows), windows[i].id, floating) != WindowChangeKind::Opened,
    decreases windows.len(),
{
    if i < windows.len() - 1 {
        law_seeded_windows_not_opened(windows.drop_last(), i, floating);
        assert(windows.drop_last()[i] == windows[i]);
    }
}

/// Events passed through unchanged (payload copied), or dropped when no plugin uses them.
pub open spec fn passthrough(event: NiriEvent) -> Seq<PiriEvent> {
    match event {
        NiriEvent::WorkspacesChanged => seq![PiriEvent::WorkspacesChanged],
        NiriEvent::WorkspaceActivated { id, focused } => seq![PiriEvent::WorkspaceActivated { id, focused }],
        NiriEvent::WorkspaceActiveWindowChanged { workspace_id, active_window_id } => seq![
            PiriEvent::WorkspaceActiveWindowChanged { workspace_id, active_window_id },
        ],
        NiriEvent::WindowFocusChanged { id } => seq![PiriEvent::WindowFocusChanged { id }],
        NiriEvent::WindowLayoutsChanged => seq![PiriEvent::WindowLayoutsChanged],
        NiriEvent::WindowFocusTimestampChanged { id } => seq![PiriEvent::WindowFocusTimestampChanged { id }],
        NiriEvent::WindowUrgencyChanged { id, urgent } => seq![PiriEvent::WindowUrgencyChanged { id, urgent }],
        NiriEvent::KeyboardLayoutsChanged => seq![PiriEvent::KeyboardLayoutsChanged],
        NiriEvent::KeyboardLayoutSwitched { idx } => seq![PiriEvent::KeyboardLayoutSwitched { idx }],
        NiriEvent::ConfigLoaded { failed } => seq![PiriEvent::ConfigLoaded { failed }],
        _ => Seq::empty(),
    }
}

} // verus!
