//! Scratchpad bookkeeping: which scratchpads exist, their windows, visibility
//! and remembered focus, and the decisions of toggling and auto-hiding.
use vstd::prelude::*;
use vstd::string::*;
use crate::config::{Config, Direction, ScratchpadConfig};
use crate::named::{distinct, find, has_name, lemma_to_map_at, lemma_to_map_prefix, lemma_to_map_push, put, remove_named, to_map};
use crate::text::{decimal, decimal_chars};
use crate::window::{PiriEvent, Window};

verus! {

/// Scratchpads plugin configuration.
pub struct ScratchpadsPluginConfig {
    pub scratchpads: Vec<(String, ScratchpadConfig)>,
    pub default_size: String,
    pub default_margin: u32,
    pub move_to_workspace: Option<String>,
}

impl ScratchpadsPluginConfig {
    pub fn default() -> (r: Self)
        ensures
            r.scratchpads@.len() == 0,
            r.default_size@ == "75% 60%"@,
            r.default_margin == 50,
            r.move_to_workspace is None,
    {
        ScratchpadsPluginConfig {
            scratchpads: Vec::new(),
            default_size: String::from_str("75% 60%"),
            default_margin: 50,
            move_to_workspace: None,
        }
    }

    /// Always present: scratchpads can be added at run time without configuration.
    pub fn from_config(config: Config) -> (r: Option<Self>)
        ensures
            r matches Some(c) && c.scratchpads@ == config.scratchpads@ && c.default_size
                == config.piri.scratchpad.default_size && c.default_margin == config.piri.scratchpad.default_margin
                && c.move_to_workspace == config.piri.scratchpad.move_to_workspace,
    {
        Some(ScratchpadsPluginConfig {
            scratchpads: config.scratchpads,
            default_size: config.piri.scratchpad.default_size,
            default_margin: config.piri.scratchpad.default_margin,
            move_to_workspace: config.piri.scratchpad.move_to_workspace,
        })
    }
}

/// One scratchpad's state.
pub struct ScratchpadState {
    pub window_id: Option<u64>,
    pub is_visible: bool,
    /// Window to give focus back to when the scratchpad hides.
    pub previous_focused_window: Option<u64>,
    pub config: ScratchpadConfig,
    /// Added at run time rather than configured.
    pub is_dynamic: bool,
}

impl Clone for ScratchpadState {
    fn clone(&self) -> (r: Self)
        ensures
            r == *self,
    {
        ScratchpadState {
            window_id: self.window_id,
            is_visible: self.is_visible,
            previous_focused_window: self.previous_focused_window,
            config: self.config.clone(),
            is_dynamic: self.is_dynamic,
        }
    }
}

/// The state of a configured scratchpad before its first toggle.
pub open spec fn fresh_state(c: ScratchpadConfig) -> ScratchpadState {
    ScratchpadState { window_id: None, is_visible: false, previous_focused_window: None, config: c, is_dynamic: false }
}

/// The states after a configuration change: configured names take the new configuration
/// (keeping window, visibility and focus memory) and stop being dynamic; new names start
/// fresh; dynamic scratchpads not configured stay; other scratchpads go.
pub open spec fn merged(old: Map<Seq<char>, ScratchpadState>, cfg: Map<Seq<char>, ScratchpadConfig>) -> Map<Seq<char>, ScratchpadState> {
    Map::new(
        |n: Seq<char>| cfg.contains_key(n) || (old.contains_key(n) && old[n].is_dynamic),
        |n: Seq<char>| if cfg.contains_key(n) {
            if old.contains_key(n) {
                ScratchpadState { config: cfg[n], is_dynamic: false, ..old[n] }
            } else {
                fresh_state(cfg[n])
            }
        } else {
            old[n]
        },
    )
}

/// The scratchpad command text of a dynamically added window.
pub open spec fn dynamic_command(window_id: u64) -> Seq<char> {
    "# Window "@ + decimal(window_id as nat) + " added dynamically"@
}

/// What to do with a scratchpad's window before toggling.
pub enum WindowCheck {
    /// The known window still exists.
    Known(u64),
    /// A configured scratchpad without a live window: find a window matching `app_id`,
    /// or launch `command` and wait for one.
    FindOrLaunch { app_id: String, command: String },
}

/// Why a scratchpad operation fails.
#[derive(Debug, PartialEq, Eq)]
pub enum ScratchpadError {
    /// No state and no configuration for the name.
    NoConfig,
    /// No state for the name.
    NotFound,
    /// The window of a dynamic scratchpad is gone (its state is removed).
    DynamicWindowGone,
    /// The focused window has no app_id.
    NoAppId,
    /// The scratchpad has no window yet.
    NoWindow,
}

/// What toggling a tiled scratchpad window does.
#[derive(Debug, PartialEq, Eq, Structural)]
pub enum TiledToggle {
    /// Focus the scratchpad window (focus memory updated).
    Focus(u64),
    /// The window is focused and refocus is on: go back to this remembered window.
    Refocus(u64),
    /// The window is focused and there is nothing to go back to.
    Nothing,
}

/// Scratchpads plugin state.
pub struct ScratchpadsPlugin {
    pub states: Vec<(String, ScratchpadState)>,
    pub config: ScratchpadsPluginConfig,
}

impl ScratchpadsPlugin {
    /// Names are distinct, among the states and among the configured scratchpads.
    pub open spec fn wf(&self) -> bool {
        distinct(self.states@) && distinct(self.config.scratchpads@)
    }

    /// The scratchpads by name.
    pub open spec fn view_states(&self) -> Map<Seq<char>, ScratchpadState> {
        to_map(self.states@)
    }

    /// A state for every configured scratchpad, none of them shown yet.
    pub fn new(config: ScratchpadsPluginConfig) -> (r: Self)
        requires
            distinct(config.scratchpads@),
        ensures
            r.wf(),
            r.view_states() == to_map(config.scratchpads@).map_values(|c: ScratchpadConfig| fresh_state(c)),
            r.config == config,
    {
        let mut states: Vec<(String, ScratchpadState)> = Vec::new();
        let n = config.scratchpads.len();
        let mut i: usize = 0;
        while i < n
            invariant
                n == config.scratchpads@.len(),
                distinct(config.scratchpads@),
                0 <= i <= n,
                distinct(states@),
                states@.len() == i,
                forall|k: int| 0 <= k < i ==> #[trigger] states@[k].0@ == config.scratchpads@[k].0@
                    && states@[k].1 == fresh_state(config.scratchpads@[k].1),
            decreases n - i,
        {
            let name = config.scratchpads[i].0.clone();
            let st = ScratchpadState {
                window_id: None,
                is_visible: false,
                previous_focused_window: None,
                config: config.scratchpads[i].1.clone(),
                is_dynamic: false,
            };
            proof {
                assert forall|k: int| 0 <= k < i implies #[trigger] states@[k].0@ != name@ by {
                    assert(config.scratchpads@[k].0@ != config.scratchpads@[i as int].0@);
                }
                assert(!has_name(states@, name@));
            }
            states.push((name, st));
            proof {
                assert forall|a: int, b: int| 0 <= a < b < states@.len() implies #[trigger] states@[a].0@ != #[trigger] states@[b].0@ by {
                    assert(config.scratchpads@[a].0@ != config.scratchpads@[b].0@);
                }
            }
            i = i + 1;
        }
        proof {
            let m = to_map(config.scratchpads@).map_values(|c: ScratchpadConfig| fresh_state(c));
            assert forall|nm: Seq<char>| #[trigger] has_name(states@, nm) <==> has_name(config.scratchpads@, nm) by {
                if has_name(states@, nm) {
                    let k = choose|k: int| 0 <= k < states@.len() && #[trigger] states@[k].0@ == nm;
                    assert(config.scratchpads@[k].0@ == nm);
                }
                if has_name(config.scratchpads@, nm) {
                    let k = choose|k: int| 0 <= k < config.scratchpads@.len() && #[trigger] config.scratchpads@[k].0@ == nm;
                    assert(states@[k].0@ == nm);
                }
            }
            assert forall|nm: Seq<char>| #[trigger] to_map(states@).contains_key(nm) implies to_map(states@)[nm] == m[nm] by {
                let k = choose|k: int| 0 <= k < states@.len() && #[trigger] states@[k].0@ == nm;
                lemma_to_map_at(states@, k);
                lemma_to_map_at(config.scratchpads@, k);
            }
            assert(to_map(states@) =~= m);
        }
        ScratchpadsPlugin { states, config }
    }

    /// Auto-hiding needs focus changes onto a window, and only matters when some scratchpad hides on focus loss.
    pub fn is_interested_in_event(&self, event: &PiriEvent) -> (r: bool)
        ensures
            r == ((event matches PiriEvent::WindowFocusChanged { id } && id is Some)
                && exists|k: int| 0 <= k < self.states@.len() && #[trigger] self.states@[k].1.config.auto_hide_on_focus_loss),
    {
        let focus = match event {
            PiriEvent::WindowFocusChanged { id: Some(_) } => true,
            _ => false,
        };
        if !focus {
            return false;
        }
        let n = self.states.len();
        let mut k: usize = 0;
        while k < n
            invariant
                n == self.states@.len(),
                0 <= k <= n,
                event matches PiriEvent::WindowFocusChanged { id } && id is Some,
                forall|j: int| 0 <= j < k ==> !(#[trigger] self.states@[j].1.config.auto_hide_on_focus_loss),
            decreases n - k,
        {
            if self.states[k].1.config.auto_hide_on_focus_loss {
                assert(self.states@[k as int].1.config.auto_hide_on_focus_loss);
                return true;
            }
            k = k + 1;
        }
        false
    }

    /// Scratchpads to hide when `focused` gets focus: visible, hiding on focus loss, showing a
    /// window other than `focused`, and that window still floating.
    pub fn names_to_hide(&self, focused: u64, windows: &[Window]) -> (r: Vec<String>)
        requires
            self.wf(),
        ensures
            forall|n: Seq<char>| #[trigger] listed(r@, n) <==> (
                self.view_states().contains_key(n) && should_hide(self.view_states()[n], focused, windows@)),
            forall|a: int, b: int| 0 <= a < b < r@.len() ==> #[trigger] r@[a]@ != #[trigger] r@[b]@,
            forall|n: Seq<char>| #[trigger] listed(r@, n) ==> {
                let st = self.view_states()[n];
                &&& self.view_states().contains_key(n)
                &&& st.config.auto_hide_on_focus_loss
                &&& st.is_visible
                &&& st.window_id is Some && st.window_id != Some(focused)
                &&& exists|k: int| 0 <= k < windows@.len() && #[trigger] windows@[k].id == st.window_id->0 && windows@[k].is_floating
            },
            forall|n: Seq<char>, k: int| {
                let st = self.view_states()[n];
                &&& self.view_states().contains_key(n)
                &&& st.config.auto_hide_on_focus_loss
                &&& st.is_visible
                &&& st.window_id is Some && st.window_id != Some(focused)
                &&& 0 <= k < windows@.len() && #[trigger] windows@[k].id == st.window_id->0 && windows@[k].is_floating
            } ==> #[trigger] listed(r@, n),
    {
        let mut out: Vec<String> = Vec::new();
        let n = self.states.len();
        let mut k: usize = 0;
        while k < n
            invariant
                n == self.states@.len(),
                distinct(self.states@),
                0 <= k <= n,
                forall|nm: Seq<char>| #[trigger] listed(out@, nm) <==> hides_upto(self.states@, k as int, nm, focused, windows@),
                forall|j: int| 0 <= j < out@.len() ==> named_before(self.states@, k as int, #[trigger] out@[j]@),
                forall|a: int, b: int| 0 <= a < b < out@.len() ==> #[trigger] out@[a]@ != #[trigger] out@[b]@,
            decreases n - k,
        {
            let st = &self.states[k].1;
            let hide = st.config.auto_hide_on_focus_loss && st.is_visible && match st.window_id {
                Some(w) => w != focused && window_floating(windows, w),
                None => false,
            };
            let ghost before = out@;
            if hide {
                out.push(self.states[k].0.clone());
                proof {
                    assert forall|j: int| 0 <= j < before.len() implies #[trigger] before[j]@ != self.states@[k as int].0@ by {
                        assert(named_before(self.states@, k as int, before[j]@));
                        let q = choose|q: int| 0 <= q < k && #[trigger] self.states@[q].0@ == before[j]@;
                        assert(self.states@[q].0@ != self.states@[k as int].0@);
                    }
                    assert forall|a: int, b: int| 0 <= a < b < out@.len() implies #[trigger] out@[a]@ != #[trigger] out@[b]@ by {
                        if b == before.len() {
                            assert(out@[a] == before[a]);
                        } else {
                            assert(out@[a] == before[a] && out@[b] == before[b]);
                        }
                    }
                    assert forall|j: int| 0 <= j < out@.len() implies named_before(self.states@, k + 1, #[trigger] out@[j]@) by {
                        if j == before.len() {
                            assert(self.states@[k as int].0@ == out@[j]@);
                        } else {
                            assert(out@[j] == before[j]);
                            assert(named_before(self.states@, k as int, before[j]@));
                            let q = choose|q: int| 0 <= q < k && #[trigger] self.states@[q].0@ == before[j]@;
                            assert(self.states@[q].0@ == out@[j]@);
                        }
                    }
                }
            } else {
                proof {
                    assert forall|j: int| 0 <= j < out@.len() implies named_before(self.states@, k + 1, #[trigger] out@[j]@) by {
                        assert(named_before(self.states@, k as int, out@[j]@));
                        let q = choose|q: int| 0 <= q < k && #[trigger] self.states@[q].0@ == out@[j]@;
                        assert(self.states@[q].0@ == out@[j]@);
                    }
                }
            }
            proof {
                assert forall|nm: Seq<char>| #[trigger] listed(out@, nm) <==> hides_upto(self.states@, k + 1, nm, focused, windows@) by {
                    if listed(out@, nm) {
                        let j = choose|j: int| 0 <= j < out@.len() && #[trigger] out@[j]@ == nm;
                        if j < before.len() {
                            assert(before[j]@ == nm);
                            assert(listed(before, nm));
                        } else {
                            assert(self.states@[k as int].0@ == nm);
                        }
                    }
                    if hides_upto(self.states@, k + 1, nm, focused, windows@) {
                        let j = choose|j: int| 0 <= j < k + 1 && #[trigger] self.states@[j].0@ == nm && should_hide(self.states@[j].1, focused, windows@);
                        if j < k {
                            assert(hides_upto(self.states@, k as int, nm, focused, windows@));
                            assert(listed(before, nm));
                            let i = choose|i: int| 0 <= i < before.len() && #[trigger] before[i]@ == nm;
                            assert(out@[i]@ == nm);
                        } else {
                            assert(out@[before.len() as int]@ == nm);
                        }
                    }
                }
            }
            k = k + 1;
        }
        proof {
            assert forall|nm: Seq<char>| #[trigger] listed(out@, nm) <==> (
                to_map(self.states@).contains_key(nm) && should_hide(to_map(self.states@)[nm], focused, windows@)) by {
                if hides_upto(self.states@, n as int, nm, focused, windows@) {
                    let j = choose|j: int| 0 <= j < n && #[trigger] self.states@[j].0@ == nm && should_hide(self.states@[j].1, focused, windows@);
                    lemma_to_map_at(self.states@, j);
                }
                if to_map(self.states@).contains_key(nm) {
                    let j = choose|j: int| 0 <= j < self.states@.len() && #[trigger] self.states@[j].0@ == nm;
                    lemma_to_map_at(self.states@, j);
                    if should_hide(to_map(self.states@)[nm], focused, windows@) {
                        assert(hides_upto(self.states@, n as int, nm, focused, windows@));
                    }
                }
            }
        }
        out
    }
}

impl ScratchpadsPlugin {
    /// Makes sure `name` has a state: an existing one stays; otherwise one is created from
    /// `config`, and without a configuration the toggle fails.
    pub fn ensure_state(&mut self, name: &str, config: Option<ScratchpadConfig>) -> (r: Result<(), ScratchpadError>)
        requires
            old(self).wf(),
        ensures
            final(self).wf(),
            final(self).config == old(self).config,
            old(self).view_states().contains_key(name@) ==> r is Ok && final(self).view_states() == old(self).view_states(),
            !old(self).view_states().contains_key(name@) ==> match config {
                Some(c) => r is Ok && final(self).view_states() == old(self).view_states().insert(name@, fresh_state(c)),
                None => r matches Err(ScratchpadError::NoConfig) && final(self).view_states() == old(self).view_states(),
            },
    {
        if find(&self.states, name).is_some() {
            return Ok(());
        }
        match config {
            Some(c) => {
                let st = ScratchpadState {
                    window_id: None,
                    is_visible: false,
                    previous_focused_window: None,
                    config: c,
                    is_dynamic: false,
                };
                put(&mut self.states, String::from_str(name), st);
                Ok(())
            },
            None => Err(ScratchpadError::NoConfig),
        }
    }

    /// The state under `name`, and its position.
    fn lookup(&self, name: &str) -> (r: Option<usize>)
        requires
            self.wf(),
        ensures
            r is None <==> !self.view_states().contains_key(name@),
            r matches Some(i) ==> i < self.states@.len() && self.states@[i as int].0@ == name@
                && self.states@[i as int].1 == self.view_states()[name@],
    {
        let r = find(&self.states, name);
        proof {
            if let Some(i) = r {
                lemma_to_map_at(self.states@, i as int);
            }
        }
        r
    }

    /// Checks the scratchpad's window against the live windows. A window that is gone is
    /// forgotten (and the scratchpad counts as hidden); a dynamic scratchpad whose window is
    /// gone is removed.
    pub fn check_window(&mut self, name: &str, windows: &[Window]) -> (r: Result<WindowCheck, ScratchpadError>)
        requires
            old(self).wf(),
        ensures
            final(self).wf(),
            final(self).config == old(self).config,
            !old(self).view_states().contains_key(name@) ==> (r matches Err(ScratchpadError::NotFound))
                && final(self).view_states() == old(self).view_states(),
            old(self).view_states().contains_key(name@) ==> ({
                let st = old(self).view_states()[name@];
                if st.window_id is Some && exists_in(windows@, st.window_id->0) {
                    r == Ok::<WindowCheck, ScratchpadError>(WindowCheck::Known(st.window_id->0))
                        && final(self).view_states() == old(self).view_states()
                } else if st.is_dynamic {
                    r matches Err(ScratchpadError::DynamicWindowGone)
                        && final(self).view_states() == old(self).view_states().remove(name@)
                } else {
                    &&& r matches Ok(WindowCheck::FindOrLaunch { app_id, command })
                        && app_id@ == st.config.app_id@ && command@ == st.config.command@
                    &&& final(self).view_states() == old(self).view_states().insert(name@, forget_window(st))
                }
            }),
    {
        let i = match self.lookup(name) {
            Some(i) => i,
            None => return Err(ScratchpadError::NotFound),
        };
        let st = self.states[i].1.clone();
        if let Some(w) = st.window_id {
            if window_exists(windows, w) {
                return Ok(WindowCheck::Known(w));
            }
        }
        if st.is_dynamic {
            remove_named(&mut self.states, name);
            return Err(ScratchpadError::DynamicWindowGone);
        }
        let app_id = st.config.app_id.clone();
        let command = st.config.command.clone();
        let cleared = match st.window_id {
            Some(_) => ScratchpadState { window_id: None, is_visible: false, ..st },
            None => st,
        };
        put(&mut self.states, String::from_str(name), cleared);
        Ok(WindowCheck::FindOrLaunch { app_id, command })
    }

    /// Records the window found or launched for a scratchpad; the result says whether the
    /// window is to be registered as sticky.
    pub fn attach_window(&mut self, name: &str, window_id: u64) -> (r: bool)
        requires
            old(self).wf(),
            old(self).view_states().contains_key(name@),
        ensures
            final(self).wf(),
            final(self).config == old(self).config,
            final(self).view_states() == old(self).view_states().insert(name@,
                ScratchpadState { window_id: Some(window_id), ..old(self).view_states()[name@] }),
            r == old(self).view_states()[name@].config.sticky,
    {
        let i = self.lookup(name).unwrap();
        let st = self.states[i].1.clone();
        let sticky = st.config.sticky;
        put(&mut self.states, String::from_str(name), ScratchpadState { window_id: Some(window_id), ..st });
        sticky
    }

    /// Toggles a scratchpad whose window is tiled, given the focused window.
    pub fn toggle_tiled(&mut self, name: &str, window_id: u64, focused: Option<u64>) -> (r: TiledToggle)
        requires
            old(self).wf(),
            old(self).view_states().contains_key(name@),
        ensures
            final(self).wf(),
            final(self).config == old(self).config,
            ({
                let st = old(self).view_states()[name@];
                let m = old(self).view_states();
                match focused {
                    Some(f) => if f == window_id {
                        if st.config.refocus && st.previous_focused_window is Some {
                            r == TiledToggle::Refocus(st.previous_focused_window->0) && final(self).view_states() == m
                        } else {
                            r == TiledToggle::Nothing && final(self).view_states() == m
                        }
                    } else {
                        r == TiledToggle::Focus(window_id)
                            && final(self).view_states() == m.insert(name@, ScratchpadState { previous_focused_window: Some(f), ..st })
                    },
                    None => r == TiledToggle::Focus(window_id)
                        && final(self).view_states() == m.insert(name@, ScratchpadState { previous_focused_window: None, ..st }),
                }
            }),
    {
        let i = self.lookup(name).unwrap();
        let st = self.states[i].1.clone();
        match focused {
            Some(f) => {
                if f == window_id {
                    match st.previous_focused_window {
                        Some(p) => {
                            if st.config.refocus {
                                TiledToggle::Refocus(p)
                            } else {
                                TiledToggle::Nothing
                            }
                        },
                        None => TiledToggle::Nothing,
                    }
                } else {
                    put(&mut self.states, String::from_str(name), ScratchpadState { previous_focused_window: Some(f), ..st });
                    TiledToggle::Focus(window_id)
                }
            },
            None => {
                put(&mut self.states, String::from_str(name), ScratchpadState { previous_focused_window: None, ..st });
                TiledToggle::Focus(window_id)
            },
        }
    }

    /// Whether `id` is the window of some scratchpad.
    fn is_scratchpad_window(&self, id: u64) -> (r: bool)
        requires
            self.wf(),
        ensures
            r == shows_window(self.view_states(), id),
    {
        let n = self.states.len();
        let mut k: usize = 0;
        while k < n
            invariant
                n == self.states@.len(),
                0 <= k <= n,
                distinct(self.states@),
                forall|j: int| 0 <= j < k ==> #[trigger] self.states@[j].1.window_id != Some(id),
            decreases n - k,
        {
            if let Some(w) = self.states[k].1.window_id {
                if w == id {
                    proof {
                        lemma_to_map_at(self.states@, k as int);
                    }
                    return true;
                }
            }
            k = k + 1;
        }
        proof {
            if shows_window(self.view_states(), id) {
                let nm = choose|nm: Seq<char>| #[trigger] self.view_states().contains_key(nm)
                    && self.view_states()[nm].window_id == Some(id);
                let j = choose|j: int| 0 <= j < self.states@.len() && #[trigger] self.states@[j].0@ == nm;
                lemma_to_map_at(self.states@, j);
            }
        }
        false
    }

    /// Toggles a scratchpad whose window floats: a visible one on the current workspace hides;
    /// otherwise it is shown (brought over if elsewhere), remembering the focused window unless
    /// that is a scratchpad window. The result says whether it is to be shown.
    pub fn toggle_floating(&mut self, name: &str, focused: Option<u64>, in_current_workspace: bool) -> (r: bool)
        requires
            old(self).wf(),
            old(self).view_states().contains_key(name@),
        ensures
            final(self).wf(),
            final(self).config == old(self).config,
            (final(self).view_states(), r) == floating_toggled(old(self).view_states(), name@, focused, in_current_workspace),
            final(self).view_states().contains_key(name@),
            final(self).view_states()[name@].is_visible == r,
            !old(self).view_states()[name@].is_visible ==> r,
            old(self).view_states()[name@].is_visible ==> (r <==> !in_current_workspace),
    {
        proof {
            law_toggle_shows_or_hides(old(self).view_states(), name@, focused, in_current_workspace);
        }
        let i = self.lookup(name).unwrap();
        let st = self.states[i].1.clone();
        if st.is_visible && in_current_workspace {
            put(&mut self.states, String::from_str(name), ScratchpadState { is_visible: false, ..st });
            return false;
        }
        let prev = match focused {
            Some(f) => if self.is_scratchpad_window(f) { None } else { Some(f) },
            None => None,
        };
        put(&mut self.states, String::from_str(name), ScratchpadState { is_visible: true, previous_focused_window: prev, ..st });
        true
    }

    /// On hiding: the window to give focus back to, forgotten afterwards.
    pub fn take_previous_focus(&mut self, name: &str) -> (r: Result<Option<u64>, ScratchpadError>)
        requires
            old(self).wf(),
        ensures
            final(self).wf(),
            final(self).config == old(self).config,
            !old(self).view_states().contains_key(name@) ==> (r matches Err(ScratchpadError::NotFound))
                && final(self).view_states() == old(self).view_states(),
            old(self).view_states().contains_key(name@) ==> r == Ok::<Option<u64>, ScratchpadError>(
                old(self).view_states()[name@].previous_focused_window)
                && final(self).view_states() == old(self).view_states().insert(name@,
                    ScratchpadState { previous_focused_window: None, ..old(self).view_states()[name@] }),
    {
        let i = match self.lookup(name) {
            Some(i) => i,
            None => return Err(ScratchpadError::NotFound),
        };
        let st = self.states[i].1.clone();
        let prev = st.previous_focused_window;
        put(&mut self.states, String::from_str(name), ScratchpadState { previous_focused_window: None, ..st });
        Ok(prev)
    }

    /// A dynamic scratchpad keeps the margin at which it was last hidden.
    pub fn set_margin(&mut self, name: &str, margin: u32)
        requires
            old(self).wf(),
        ensures
            final(self).wf(),
            final(self).config == old(self).config,
            !old(self).view_states().contains_key(name@) ==> final(self).view_states() == old(self).view_states(),
            old(self).view_states().contains_key(name@) ==> ({
                let st = old(self).view_states()[name@];
                final(self).view_states() == old(self).view_states().insert(name@,
                    ScratchpadState { config: ScratchpadConfig { margin, ..st.config }, ..st })
            }),
    {
        let i = match self.lookup(name) {
            Some(i) => i,
            None => return,
        };
        let st = self.states[i].1.clone();
        let c = ScratchpadConfig { margin, ..st.config };
        put(&mut self.states, String::from_str(name), ScratchpadState { config: c, ..st });
    }

    /// The configuration the scratchpad `name` currently runs with, if there is one.
    pub fn state_config(&self, name: &str) -> (r: Option<ScratchpadConfig>)
        requires
            self.wf(),
        ensures
            r == (if self.view_states().contains_key(name@) {
                Some(self.view_states()[name@].config)
            } else {
                None
            }),
    {
        match self.lookup(name) {
            Some(i) => Some(self.states[i].1.config.clone()),
            None => None,
        }
    }

    /// The window of an existing scratchpad `name`, while it is alive: adding the focused
    /// window under that name then toggles the scratchpad instead.
    pub fn live_window(&self, name: &str, windows: &[Window]) -> (r: Option<u64>)
        requires
            self.wf(),
        ensures
            r == (if self.view_states().contains_key(name@) && self.view_states()[name@].window_id is Some
                && exists_in(windows@, self.view_states()[name@].window_id->0) {
                self.view_states()[name@].window_id
            } else {
                None
            }),
    {
        match self.lookup(name) {
            Some(i) => match self.states[i].1.window_id {
                Some(w) => if window_exists(windows, w) { Some(w) } else { None },
                None => None,
            },
            None => None,
        }
    }

    /// Makes the focused window the dynamic scratchpad `name`: hidden, sized and placed by the
    /// defaults, and without auto-hide, stickiness or refocus. A window without app_id is refused.
    pub fn add_dynamic(&mut self, name: &str, window: &Window, direction: Direction, swallow_to_focus: bool) -> (r: Result<(), ScratchpadError>)
        requires
            old(self).wf(),
        ensures
            final(self).wf(),
            final(self).config == old(self).config,
            window.app_id is None ==> (r matches Err(ScratchpadError::NoAppId)) && final(self).view_states() == old(self).view_states(),
            window.app_id is Some ==> r is Ok && ({
                let m = final(self).view_states();
                let st = m[name@];
                &&& m.remove(name@) == old(self).view_states().remove(name@)
                &&& m.contains_key(name@)
                &&& st.window_id == Some(window.id)
                &&& !st.is_visible
                &&& st.previous_focused_window is None
                &&& st.is_dynamic
                &&& st.config.direction == direction
                &&& st.config.command@ == dynamic_command(window.id)
                &&& st.config.app_id@ == window.app_id->0@
                &&& st.config.size@ == old(self).config.default_size@
                &&& st.config.margin == old(self).config.default_margin
                &&& st.config.swallow_to_focus == swallow_to_focus
                &&& !st.config.sticky && !st.config.auto_hide_on_focus_loss && !st.config.refocus
            }),
    {
        let app_id = match &window.app_id {
            Some(a) => a.clone(),
            None => return Err(ScratchpadError::NoAppId),
        };
        let config = ScratchpadConfig {
            direction,
            command: dynamic_command_text(window.id),
            app_id,
            size: self.config.default_size.clone(),
            margin: self.config.default_margin,
            swallow_to_focus,
            sticky: false,
            auto_hide_on_focus_loss: false,
            refocus: false,
        };
        let st = ScratchpadState {
            window_id: Some(window.id),
            is_visible: false,
            previous_focused_window: None,
            config,
            is_dynamic: true,
        };
        put(&mut self.states, String::from_str(name), st);
        proof {
            let m = to_map(self.states@);
            assert(m.contains_key(name@));
        }
        Ok(())
    }
}

impl ScratchpadsPlugin {
    /// The configuration of the configured scratchpad `name`.
    pub fn configured(&self, name: &str) -> (r: Option<ScratchpadConfig>)
        requires
            self.wf(),
        ensures
            r == (if to_map(self.config.scratchpads@).contains_key(name@) {
                Some(to_map(self.config.scratchpads@)[name@])
            } else {
                None
            }),
    {
        match find(&self.config.scratchpads, name) {
            Some(i) => {
                proof {
                    lemma_to_map_at(self.config.scratchpads@, i as int);
                }
                Some(self.config.scratchpads[i].1.clone())
            },
            None => None,
        }
    }

    /// Takes a new configuration: configured names take their new configuration (keeping
    /// window, visibility and focus memory) and stop being dynamic, new names start fresh,
    /// dynamic scratchpads stay, and the other scratchpads are dropped.
    pub fn update_config(&mut self, config: ScratchpadsPluginConfig)
        requires
            old(self).wf(),
            distinct(config.scratchpads@),
        ensures
            final(self).wf(),
            final(self).config == config,
            final(self).view_states() == merged(old(self).view_states(), to_map(config.scratchpads@)),
    {
        let ghost old_map = self.view_states();
        let ghost cfg = config.scratchpads@;
        let n = config.scratchpads.len();
        let mut i: usize = 0;
        proof {
            assert(to_map(cfg.subrange(0, 0)) =~= Map::<Seq<char>, ScratchpadConfig>::empty());
            assert(merge_in(old_map, to_map(cfg.subrange(0, 0))) =~= old_map);
        }
        while i < n
            invariant
                n == cfg.len(),
                cfg == config.scratchpads@,
                distinct(cfg),
                distinct(self.states@),
                0 <= i <= n,
                to_map(self.states@) == merge_in(old_map, to_map(cfg.subrange(0, i as int))),
            decreases n - i,
        {
            let name = &config.scratchpads[i].0;
            let c = config.scratchpads[i].1.clone();
            let ghost before = to_map(self.states@);
            let ghost prefix = to_map(cfg.subrange(0, i as int));
            proof {
                lemma_to_map_prefix(cfg, i as int);
                if prefix.contains_key(name@) {
                    let j = choose|j: int| 0 <= j < i && #[trigger] cfg.subrange(0, i as int)[j].0@ == name@;
                    assert(cfg.subrange(0, i as int)[j] == cfg[j]);
                    assert(cfg[j].0@ != cfg[i as int].0@);
                }
                assert(!prefix.contains_key(name@));
                assert(before.contains_key(name@) == old_map.contains_key(name@));
                assert(old_map.contains_key(name@) ==> before[name@] == old_map[name@]);
            }
            let st = match find(&self.states, name.as_str()) {
                Some(j) => {
                    proof {
                        lemma_to_map_at(self.states@, j as int);
                    }
                    let o = self.states[j].1.clone();
                    ScratchpadState { config: c, is_dynamic: false, ..o }
                },
                None => ScratchpadState {
                    window_id: None,
                    is_visible: false,
                    previous_focused_window: None,
                    config: c,
                    is_dynamic: false,
                },
            };
            put(&mut self.states, name.clone(), st);
            proof {
                let next = to_map(cfg.subrange(0, i as int + 1));
                assert(next == prefix.insert(name@, cfg[i as int].1));
                assert(to_map(self.states@) =~= merge_in(old_map, next));
            }
            i = i + 1;
        }
        proof {
            assert(cfg.subrange(0, n as int) =~= cfg);
        }
        let ghost mid = to_map(self.states@);
        let ghost cfg_map = to_map(cfg);
        let mut cur: Vec<(String, ScratchpadState)> = Vec::new();
        std::mem::swap(&mut cur, &mut self.states);
        let m = cur.len();
        let mut k: usize = 0;
        proof {
            assert(to_map(cur@.subrange(0, 0)) =~= Map::<Seq<char>, ScratchpadState>::empty());
            assert(to_map(self.states@) =~= kept(to_map(cur@.subrange(0, 0)), cfg_map));
        }
        while k < m
            invariant
                m == cur@.len(),
                distinct(cur@),
                to_map(cur@) == mid,
                cfg == config.scratchpads@,
                cfg_map == to_map(cfg),
                distinct(cfg),
                distinct(self.states@),
                0 <= k <= m,
                to_map(self.states@) == kept(to_map(cur@.subrange(0, k as int)), cfg_map),
            decreases m - k,
        {
            let ghost prefix = to_map(cur@.subrange(0, k as int));
            proof {
                lemma_to_map_prefix(cur@, k as int);
                if prefix.contains_key(cur@[k as int].0@) {
                    let j = choose|j: int| 0 <= j < k && #[trigger] cur@.subrange(0, k as int)[j].0@ == cur@[k as int].0@;
                    assert(cur@.subrange(0, k as int)[j] == cur@[j]);
                    assert(cur@[j].0@ != cur@[k as int].0@);
                }
                assert(!prefix.contains_key(cur@[k as int].0@));
                assert(!to_map(self.states@).contains_key(cur@[k as int].0@));
                assert(!has_name(self.states@, cur@[k as int].0@));
            }
            let keep = cur[k].1.is_dynamic || find(&config.scratchpads, cur[k].0.as_str()).is_some();
            if keep {
                proof {
                    lemma_to_map_push(self.states@, cur@[k as int].0, cur@[k as int].1);
                }
                let name = cur[k].0.clone();
                let st = cur[k].1.clone();
                self.states.push((name, st));
            }
            proof {
                let next = to_map(cur@.subrange(0, k as int + 1));
                assert(next == prefix.insert(cur@[k as int].0@, cur@[k as int].1));
                assert(to_map(self.states@) =~= kept(next, cfg_map));
            }
            k = k + 1;
        }
        proof {
            assert(cur@.subrange(0, m as int) =~= cur@);
            assert(to_map(self.states@) =~= merged(old_map, cfg_map));
        }
        self.config = config;
    }
}

/// Taking a new configuration keeps what each scratchpad has at run time: a configured name
/// keeps its window, visibility and remembered focus; a dynamic scratchpad the configuration
/// does not name stays as it was; a non-dynamic one it does not name is dropped.
pub proof fn law_reload_keeps_runtime_state(
    old: Map<Seq<char>, ScratchpadState>,
    cfg: Map<Seq<char>, ScratchpadConfig>,
    n: Seq<char>,
)
    ensures
        cfg.contains_key(n) && old.contains_key(n) ==> {
            let m = merged(old, cfg)[n];
            &&& merged(old, cfg).contains_key(n)
            &&& m.window_id == old[n].window_id
            &&& m.is_visible == old[n].is_visible
            &&& m.previous_focused_window == old[n].previous_focused_window
            &&& m.config == cfg[n]
            &&& !m.is_dynamic
        },
        !cfg.contains_key(n) && old.contains_key(n) && old[n].is_dynamic ==> merged(old, cfg).contains_key(n)
            && merged(old, cfg)[n] == old[n],
        !cfg.contains_key(n) && !(old.contains_key(n) && old[n].is_dynamic) ==> !merged(old, cfg).contains_key(n),
        cfg.contains_key(n) && !old.contains_key(n) ==> {
            let m = merged(old, cfg)[n];
            &&& merged(old, cfg).contains_key(n)
            &&& m.window_id is None && !m.is_visible && m.previous_focused_window is None
            &&& m.config == cfg[n] && !m.is_dynamic
        },
{
}

/// A hidden scratchpad lies wholly outside the output, just past the edge it comes from;
/// a shown one lies `margin` pixels inside that edge. Either way it is centred along the
/// edge.
pub proof fn law_hidden_off_screen(d: Direction, output: (u32, u32), size: (u32, u32), margin: u32)
    ensures
        ({
            let (hx, hy) = hidden_at(d, output, size);
            let (sx, sy) = shown_at(d, output, size, margin);
            &&& d == Direction::Top ==> hy + size.1 == 0 && sy == margin
            &&& d == Direction::Bottom ==> hy == output.1 && sy + size.1 + margin == output.1
            &&& d == Direction::Left ==> hx + size.0 == 0 && sx == margin
            &&& d == Direction::Right ==> hx == output.0 && sx + size.0 + margin == output.0
            &&& (d == Direction::Top || d == Direction::Bottom) ==> hx == sx && hx == (output.0 / 2) as int - (size.0 / 2) as int
            &&& (d == Direction::Left || d == Direction::Right) ==> hy == sy && hy == (output.1 / 2) as int - (size.1 / 2) as int
        }),
{
}

/// The states after taking in the configured scratchpads, before dropping stale ones.
pub open spec fn merge_in(old: Map<Seq<char>, ScratchpadState>, cfg: Map<Seq<char>, ScratchpadConfig>) -> Map<Seq<char>, ScratchpadState> {
    Map::new(
        |n: Seq<char>| old.contains_key(n) || cfg.contains_key(n),
        |n: Seq<char>| if cfg.contains_key(n) {
            if old.contains_key(n) {
                ScratchpadState { config: cfg[n], is_dynamic: false, ..old[n] }
            } else {
                fresh_state(cfg[n])
            }
        } else {
            old[n]
        },
    )
}

/// The states that stay: configured or dynamic ones.
pub open spec fn kept(m: Map<Seq<char>, ScratchpadState>, cfg: Map<Seq<char>, ScratchpadConfig>) -> Map<Seq<char>, ScratchpadState> {
    Map::new(|n: Seq<char>| m.contains_key(n) && (m[n].is_dynamic || cfg.contains_key(n)), |n: Seq<char>| m[n])
}

/// How to bring a scratchpad window in line with its state.
pub enum SyncPlan {
    /// Shown with swallow-to-focus while another window is focused: swallow the scratchpad
    /// window into that window, and nothing else.
    Swallow { window_id: u64, parent: u64 },
    /// Place the window.
    Place {
        window_id: u64,
        /// Shown (else hidden). After moving, a shown window gets focus; a hidden one gives
        /// focus back to the remembered window.
        show: bool,
        /// Make the window float before hiding it (swallow-to-focus scratchpads).
        float_first: bool,
        /// Bring the window to the current workspace first (when shown).
        bring_here: bool,
        /// Measure the margin from where the window is (a dynamic scratchpad being hidden).
        measure_margin: bool,
        /// Take the size from the configuration (otherwise keep the window's size).
        size_from_config: bool,
        /// Resize before moving (a configured scratchpad being shown).
        resize: bool,
        /// Workspace to park the hidden window on.
        park_on: Option<String>,
    },
}

impl ScratchpadsPlugin {
    /// The steps that bring the window of `name` in line with its state, given the focused
    /// window and the workspace hidden scratchpads are parked on.
    pub fn sync_plan(&self, name: &str, focused: Option<u64>, move_to_workspace: Option<String>) -> (r: Result<SyncPlan, ScratchpadError>)
        requires
            self.wf(),
        ensures
            !self.view_states().contains_key(name@) ==> (r matches Err(ScratchpadError::NotFound)),
            self.view_states().contains_key(name@) && self.view_states()[name@].window_id is None
                ==> (r matches Err(ScratchpadError::NoWindow)),
            self.view_states().contains_key(name@) && self.view_states()[name@].window_id is Some ==> ({
                let st = self.view_states()[name@];
                let w = st.window_id->0;
                let v = st.is_visible;
                let d = st.is_dynamic;
                if st.config.swallow_to_focus && v && focused is Some && focused->0 != w {
                    r matches Ok(SyncPlan::Swallow { window_id, parent }) && window_id == w && parent == focused->0
                } else {
                    r matches Ok(SyncPlan::Place { window_id, show, float_first, bring_here, measure_margin,
                        size_from_config, resize, park_on })
                        && window_id == w && show == v && float_first == (st.config.swallow_to_focus && !v)
                        && bring_here == v && measure_margin == (d && !v) && size_from_config == !d
                        && resize == (v && !d) && park_on == (if v { None } else { move_to_workspace })
                }
            }),
    {
        let i = match self.lookup(name) {
            Some(i) => i,
            None => return Err(ScratchpadError::NotFound),
        };
        let st = &self.states[i].1;
        let w = match st.window_id {
            Some(w) => w,
            None => return Err(ScratchpadError::NoWindow),
        };
        let v = st.is_visible;
        let d = st.is_dynamic;
        let swallow = st.config.swallow_to_focus;
        if swallow && v {
            if let Some(f) = focused {
                if f != w {
                    return Ok(SyncPlan::Swallow { window_id: w, parent: f });
                }
            }
        }
        Ok(SyncPlan::Place {
            window_id: w,
            show: v,
            float_first: swallow && !v,
            bring_here: v,
            measure_margin: d && !v,
            size_from_config: !d,
            resize: v && !d,
            park_on: if v { None } else { move_to_workspace },
        })
    }
}

/// Offset that centres `size` in `total` (half the total less half the size).
pub open spec fn centred(total: u32, size: u32) -> int {
    (total / 2) as int - (size / 2) as int
}

/// Where a shown scratchpad goes on an output: `margin` pixels from the edge it comes from,
/// centred along that edge.
pub open spec fn shown_at(d: Direction, output: (u32, u32), size: (u32, u32), margin: u32) -> (int, int) {
    match d {
        Direction::Top => (centred(output.0, size.0), margin as int),
        Direction::Bottom => (centred(output.0, size.0), output.1 - size.1 - margin),
        Direction::Left => (margin as int, centred(output.1, size.1)),
        Direction::Right => (output.0 - size.0 - margin, centred(output.1, size.1)),
    }
}

/// Where a hidden scratchpad goes: just past the edge it comes from, centred along it.
pub open spec fn hidden_at(d: Direction, output: (u32, u32), size: (u32, u32)) -> (int, int) {
    match d {
        Direction::Top => (centred(output.0, size.0), -(size.1 as int)),
        Direction::Bottom => (centred(output.0, size.0), output.1 as int),
        Direction::Left => (-(size.0 as int), centred(output.1, size.1)),
        Direction::Right => (output.0 as int, centred(output.1, size.1)),
    }
}

/// Distance of a window at `pos` from the edge its scratchpad comes from.
pub open spec fn edge_distance(d: Direction, output: (u32, u32), pos: (i64, i64), size: (u32, u32)) -> int {
    match d {
        Direction::Top => pos.1 as int,
        Direction::Bottom => output.1 - pos.1 - size.1,
        Direction::Left => pos.0 as int,
        Direction::Right => output.0 - pos.0 - size.0,
    }
}

fn centred_exec(total: u32, size: u32) -> (r: i64)
    ensures
        r == centred(total, size),
{
    (total / 2) as i64 - (size / 2) as i64
}

/// Position of a shown scratchpad window of `size` on an output of `output` pixels.
pub fn shown_position(d: Direction, output: (u32, u32), size: (u32, u32), margin: u32) -> (r: (i64, i64))
    ensures
        (r.0 as int, r.1 as int) == shown_at(d, output, size, margin),
{
    match d {
        Direction::Top => (centred_exec(output.0, size.0), margin as i64),
        Direction::Bottom => (centred_exec(output.0, size.0), output.1 as i64 - size.1 as i64 - margin as i64),
        Direction::Left => (margin as i64, centred_exec(output.1, size.1)),
        Direction::Right => (output.0 as i64 - size.0 as i64 - margin as i64, centred_exec(output.1, size.1)),
    }
}

/// Position of a hidden scratchpad window: off the output, past the edge it comes from.
pub fn hidden_position(d: Direction, output: (u32, u32), size: (u32, u32)) -> (r: (i64, i64))
    ensures
        (r.0 as int, r.1 as int) == hidden_at(d, output, size),
{
    match d {
        Direction::Top => (centred_exec(output.0, size.0), -(size.1 as i64)),
        Direction::Bottom => (centred_exec(output.0, size.0), output.1 as i64),
        Direction::Left => (-(size.0 as i64), centred_exec(output.1, size.1)),
        Direction::Right => (output.0 as i64, centred_exec(output.1, size.1)),
    }
}

/// The margin a window keeps from the edge its scratchpad comes from, clamped to `u32`.
pub fn measured_margin(d: Direction, output: (u32, u32), pos: (i64, i64), size: (u32, u32)) -> (r: u32)
    ensures
        r as int == (if edge_distance(d, output, pos, size) < 0 {
            0
        } else if edge_distance(d, output, pos, size) > u32::MAX {
            u32::MAX as int
        } else {
            edge_distance(d, output, pos, size)
        }),
{
    let m: i128 = match d {
        Direction::Top => pos.1 as i128,
        Direction::Bottom => output.1 as i128 - pos.1 as i128 - size.1 as i128,
        Direction::Left => pos.0 as i128,
        Direction::Right => output.0 as i128 - pos.0 as i128 - size.0 as i128,
    };
    if m < 0 {
        0
    } else if m > 0xffff_ffff {
        0xffff_ffff
    } else {
        m as u32
    }
}

/// Measuring where a shown scratchpad was placed gives back its margin.
pub proof fn law_margin_round_trip(d: Direction, output: (u32, u32), size: (u32, u32), margin: u32)
    ensures
        edge_distance(d, output, (shown_at(d, output, size, margin).0 as i64, shown_at(d, output, size, margin).1 as i64), size)
            == margin,
{
}

/// The state with its window forgotten; a forgotten window also means hidden.
pub open spec fn forget_window(st: ScratchpadState) -> ScratchpadState {
    if st.window_id is Some {
        ScratchpadState { window_id: None, is_visible: false, ..st }
    } else {
        st
    }
}

/// The states after toggling the floating scratchpad `name`, and whether it is shown: a
/// visible one on the current workspace hides; otherwise it shows, remembering the focused
/// window unless that is a scratchpad window.
pub open spec fn floating_toggled(
    m: Map<Seq<char>, ScratchpadState>,
    name: Seq<char>,
    focused: Option<u64>,
    here: bool,
) -> (Map<Seq<char>, ScratchpadState>, bool) {
    let st = m[name];
    if st.is_visible && here {
        (m.insert(name, ScratchpadState { is_visible: false, ..st }), false)
    } else {
        (m.insert(name, ScratchpadState { is_visible: true, previous_focused_window: remembered_focus(m, focused), ..st }), true)
    }
}

/// Toggling a hidden scratchpad always shows it, wherever its window is; a visible one hides
/// when it is on the current workspace and is brought here (staying visible) otherwise. The
/// scratchpad is visible afterwards exactly when the toggle says it was shown, and every
/// other scratchpad is left as it was.
pub proof fn law_toggle_shows_or_hides(m: Map<Seq<char>, ScratchpadState>, name: Seq<char>, focused: Option<u64>, here: bool)
    requires
        m.contains_key(name),
    ensures
        ({
            let (after, shown) = floating_toggled(m, name, focused, here);
            &&& after.contains_key(name)
            &&& after[name].is_visible == shown
            &&& !m[name].is_visible ==> shown
            &&& m[name].is_visible ==> (shown <==> !here)
            &&& after[name].window_id == m[name].window_id
            &&& after[name].config == m[name].config
            &&& after.remove(name) == m.remove(name)
            &&& !shown ==> after[name].previous_focused_window == m[name].previous_focused_window
            &&& shown && focused is None ==> after[name].previous_focused_window is None
            &&& shown && focused is Some && (forall|n: Seq<char>| #[trigger] m.contains_key(n) ==> m[n].window_id != focused)
                ==> after[name].previous_focused_window == focused
            &&& shown && focused is Some && (exists|n: Seq<char>| #[trigger] m.contains_key(n) && m[n].window_id == focused)
                ==> after[name].previous_focused_window is None
        }),
{
    let (after, shown) = floating_toggled(m, name, focused, here);
    assert(after.remove(name) =~= m.remove(name));
}

/// Showing a hidden scratchpad while window `f` has focus, then hiding it on the current
/// workspace, leaves `f` as the window to give focus back to, unless `f` is itself a
/// scratchpad window; toggling twice leaves the scratchpad hidden again.
pub proof fn law_hide_returns_focus(m: Map<Seq<char>, ScratchpadState>, name: Seq<char>, f: u64, g: Option<u64>)
    requires
        m.contains_key(name),
        !m[name].is_visible,
    ensures
        ({
            let (shown, s1) = floating_toggled(m, name, Some(f), false);
            let (hidden, s2) = floating_toggled(shown, name, g, true);
            &&& s1 && !s2
            &&& !hidden[name].is_visible
            &&& hidden[name].previous_focused_window == (if shows_window(m, f) { None } else { Some(f) })
            &&& hidden[name].window_id == m[name].window_id
        }),
{
}

/// Some scratchpad shows window `id`.
pub open spec fn shows_window(m: Map<Seq<char>, ScratchpadState>, id: u64) -> bool {
    exists|n: Seq<char>| #[trigger] m.contains_key(n) && m[n].window_id == Some(id)
}

/// The focused window to give focus back to later: none if it is itself a scratchpad window.
pub open spec fn remembered_focus(m: Map<Seq<char>, ScratchpadState>, focused: Option<u64>) -> Option<u64> {
    match focused {
        Some(f) => if shows_window(m, f) { None } else { Some(f) },
        None => None,
    }
}

/// One of the first `k` states is named `n`.
pub open spec fn named_before(s: Seq<(String, ScratchpadState)>, k: int, n: Seq<char>) -> bool {
    exists|q: int| 0 <= q < k && #[trigger] s[q].0@ == n
}

/// Some name in the list equals `n`.
pub open spec fn listed(v: Seq<String>, n: Seq<char>) -> bool {
    exists|j: int| 0 <= j < v.len() && #[trigger] v[j]@ == n
}

/// Among the first `k` states, one named `n` should hide.
pub open spec fn hides_upto(s: Seq<(String, ScratchpadState)>, k: int, n: Seq<char>, focused: u64, windows: Seq<Window>) -> bool {
    exists|j: int| 0 <= j < k && #[trigger] s[j].0@ == n && should_hide(s[j].1, focused, windows)
}

/// Whether a scratchpad hides when `focused` gets focus.
pub open spec fn should_hide(st: ScratchpadState, focused: u64, windows: Seq<Window>) -> bool {
    &&& st.config.auto_hide_on_focus_loss
    &&& st.is_visible
    &&& st.window_id matches Some(w) && w != focused && is_floating_in(windows, w)
}

/// Some window with this id floats.
pub open spec fn is_floating_in(windows: Seq<Window>, id: u64) -> bool {
    exists|k: int| 0 <= k < windows.len() && #[trigger] windows[k].id == id && windows[k].is_floating
}

/// Some window has this id.
pub open spec fn exists_in(windows: Seq<Window>, id: u64) -> bool {
    exists|k: int| 0 <= k < windows.len() && #[trigger] windows[k].id == id
}

fn window_floating(windows: &[Window], id: u64) -> (r: bool)
    ensures
        r == is_floating_in(windows@, id),
{
    let n = windows.len();
    let mut k: usize = 0;
    while k < n
        invariant
            n == windows@.len(),
            0 <= k <= n,
            forall|j: int| 0 <= j < k ==> !(#[trigger] windows@[j].id == id && windows@[j].is_floating),
        decreases n - k,
    {
        if windows[k].id == id && windows[k].is_floating {
            return true;
        }
        k = k + 1;
    }
    false
}

/// Whether a window with this id exists.
pub fn window_exists(windows: &[Window], id: u64) -> (r: bool)
    ensures
        r == exists_in(windows@, id),
{
    let n = windows.len();
    let mut k: usize = 0;
    while k < n
        invariant
            n == windows@.len(),
            0 <= k <= n,
            forall|j: int| 0 <= j < k ==> #[trigger] windows@[j].id != id,
        decreases n - k,
    {
        if windows[k].id == id {
            return true;
        }
        k = k + 1;
    }
    false
}

/// The command text recorded for a dynamically added window.
pub fn dynamic_command_text(window_id: u64) -> (r: String)
    ensures
        r@ == dynamic_command(window_id),
{
    let digits = decimal_chars(window_id);
    let mut s = String::from_str("# Window ");
    let n = digits.len();
    let mut i: usize = 0;
    while i < n
        invariant
            n == digits@.len(),
            digits@ == decimal(window_id as nat),
            0 <= i <= n,
            s@ == "# Window "@ + digits@.subrange(0, i as int),
        decreases n - i,
    {
        crate::text::push_char(&mut s, digits[i]);
        proof {
            assert(digits@.subrange(0, i as int + 1) =~= digits@.subrange(0, i as int).push(digits@[i as int]));
            assert(s@ =~= "# Window "@ + digits@.subrange(0, i as int + 1));
        }
        i = i + 1;
    }
    assert(digits@.subrange(0, n as int) =~= digits@);
    s.concat(" added dynamically")
}

} // verus!
