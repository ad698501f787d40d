//! The compositor's windows and events, as the plain values the daemon's logic reads.
use vstd::prelude::*;

verus! {

/// A window of the compositor.
pub struct Window {
    /// Unique id of the window while it is open.
    pub id: u64,
    /// Title, if set.
    pub title: Option<String>,
    /// Application id, if set.
    pub app_id: Option<String>,
    /// Workspace the window is on, if any.
    pub workspace_id: Option<u64>,
    /// Whether the window floats (otherwise it is tiled).
    pub is_floating: bool,
    /// Column and tile (1-based) in the scrolling layout, for tiled windows.
    pub pos_in_scrolling_layout: Option<(usize, usize)>,
}

/// A workspace of the compositor.
pub struct Workspace {
    pub id: u64,
    /// Index on its output (1-based).
    pub idx: u8,
    pub name: Option<String>,
    pub output: Option<String>,
}

/// An event of the compositor's event stream, with the payload the daemon reads.
#[allow(inconsistent_fields)]
pub enum NiriEvent {
    WorkspacesChanged,
    WorkspaceUrgencyChanged,
    WorkspaceActivated { id: u64, focused: bool },
    WorkspaceActiveWindowChanged { workspace_id: u64, active_window_id: Option<u64> },
    WindowsChanged { windows: Vec<Window> },
    WindowOpenedOrChanged { window: Window },
    WindowClosed { id: u64 },
    WindowFocusChanged { id: Option<u64> },
    WindowFocusTimestampChanged { id: u64 },
    WindowUrgencyChanged { id: u64, urgent: bool },
    WindowLayoutsChanged,
    KeyboardLayoutsChanged,
    KeyboardLayoutSwitched { idx: u8 },
    OverviewOpenedOrClosed,
    ConfigLoaded { failed: bool },
    ScreenshotCaptured,
    CastsChanged,
    CastStartedOrChanged,
    CastStopped,
}

/// Fine-grained events handed to plugins: the coarse "opened or changed" event
/// is split into opened, floating toggled and changed.
#[allow(inconsistent_fields)]
pub enum PiriEvent {
    WindowOpened { window: Window },
    WindowChanged { window: Window },
    WindowToggleFloating { window: Window },
    WorkspacesChanged,
    WorkspaceActivated { id: u64, focused: bool },
    WorkspaceActiveWindowChanged { workspace_id: u64, active_window_id: Option<u64> },
    WindowsChanged { windows: Vec<Window> },
    WindowClosed { id: u64 },
    WindowFocusChanged { id: Option<u64> },
    WindowLayoutsChanged,
    WindowFocusTimestampChanged { id: u64 },
    WindowUrgencyChanged { id: u64, urgent: bool },
    KeyboardLayoutsChanged,
    KeyboardLayoutSwitched { idx: u8 },
    ConfigLoaded { failed: bool },
}

impl Window {
    /// The column of a tiled window, 1 when the layout gives none.
    pub open spec fn column(&self) -> usize {
        match self.pos_in_scrolling_layout {
            Some(p) => p.0,
            None => 1,
        }
    }

    /// The column of a tiled window, 1 when the layout gives none.
    pub fn current_column(&self) -> (r: usize)
        ensures
            r == self.column(),
    {
        match self.pos_in_scrolling_layout {
            Some(p) => p.0,
            None => 1,
        }
    }
}

} // verus!
