//! Sticky windows: floating windows that follow the focused workspace.
use vstd::prelude::*;
use crate::window::{PiriEvent, Window, Workspace};

verus! {

/// Sticky plugin configuration (there is nothing to configure).
pub struct StickyPluginConfig;

impl StickyPluginConfig {
    /// Always present.
    pub fn from_config() -> (r: Option<Self>)
        ensures
            r is Some,
    {
        Some(StickyPluginConfig)
    }
}

/// Why making a window sticky fails.
#[derive(Debug, PartialEq, Eq, Structural)]
pub enum StickyError {
    /// Only floating windows can be sticky.
    NotFloating,
}

impl StickyError {
    /// The message shown to the user.
    pub fn message(&self) -> (r: &'static str)
        ensures
            r@ == "Focused window is not floating. Sticky only supports floating windows."@,
    {
        let r = "Focused window is not floating. Sticky only supports floating windows.";
        proof {
            reveal_strlit("Focused window is not floating. Sticky only supports floating windows.");
        }
        r
    }
}

/// What following the focused workspace found for one sticky window.
pub enum FollowOutcome {
    /// Moved along (or already there).
    Keep,
    /// The window no longer exists.
    WindowGone,
    /// The window is tiled now.
    NotFloating,
    /// The window moved to an output of another size (it is then resized in proportion).
    OutputChanged { old_width: u32, old_height: u32, new_width: u32, new_height: u32 },
}

/// What following the focused workspace does with one sticky window.
#[derive(Debug, PartialEq, Eq, Structural)]
pub enum FollowStep {
    /// The window no longer exists.
    Gone,
    /// The window is tiled now.
    NotFloating,
    /// The window stays: it is on the focused workspace already, or on another output and
    /// not allowed to cross monitors.
    Stay,
    /// Move the window to this workspace.
    MoveTo(u64),
}

/// Outputs of two workspaces are the same one (a window on no workspace counts as on the
/// same output).
pub open spec fn same_output(a: Option<Workspace>, b: Workspace) -> bool {
    match a {
        Some(w) => match (w.output, b.output) {
            (Some(x), Some(y)) => x@ == y@,
            (None, None) => true,
            _ => false,
        },
        None => true,
    }
}

/// The step for a sticky window (`None` when it is gone) that is on workspace `from`, when
/// workspace `to` gets focus.
pub open spec fn follow_step(window: Option<Window>, from: Option<Workspace>, to: Workspace, cross_monitor: bool) -> FollowStep {
    match window {
        None => FollowStep::Gone,
        Some(w) => if !w.is_floating {
            FollowStep::NotFloating
        } else if w.workspace_id == Some(to.id) || (!cross_monitor && !same_output(from, to)) {
            FollowStep::Stay
        } else {
            FollowStep::MoveTo(to.id)
        },
    }
}

/// A sticky window moves only when it still floats and is not on the focused workspace
/// already, and then to the focused workspace. With cross-monitor following it always
/// moves in that case; without, it moves exactly when both workspaces are on one output,
/// and a window on another output stays.
pub proof fn law_follow_moves(window: Option<Window>, from: Option<Workspace>, to: Workspace, cross_monitor: bool)
    ensures
        ({
            let r = follow_step(window, from, to, cross_monitor);
            let floats = window is Some && window->0.is_floating;
            let elsewhere = window is Some && window->0.workspace_id != Some(to.id);
            let apart = from is Some && from->0.output is Some && to.output is Some && from->0.output->0@ != to.output->0@;
            let together = from is Some && from->0.output is Some && to.output is Some && from->0.output->0@ == to.output->0@;
            &&& window is None <==> r is Gone
            &&& (window is Some && !floats) <==> r is NotFloating
            &&& r is MoveTo ==> r == FollowStep::MoveTo(to.id) && floats && elsewhere
            &&& floats && !elsewhere ==> r is Stay
            &&& cross_monitor && floats && elsewhere ==> r == FollowStep::MoveTo(to.id)
            &&& !cross_monitor && apart ==> !(r is MoveTo)
            &&& !cross_monitor && floats && elsewhere && together ==> r == FollowStep::MoveTo(to.id)
        }),
{
}

fn same_output_exec(a: Option<&Workspace>, b: &Workspace) -> (r: bool)
    ensures
        r == same_output(match a { Some(w) => Some(*w), None => None }, *b),
{
    match a {
        Some(w) => match (&w.output, &b.output) {
            (Some(x), Some(y)) => crate::text::str_eq(x.as_str(), y.as_str()),
            (None, None) => true,
            _ => false,
        },
        None => true,
    }
}

/// The step for one sticky window when workspace `to` gets focus.
pub fn follow(window: Option<&Window>, from: Option<&Workspace>, to: &Workspace, cross_monitor: bool) -> (r: FollowStep)
    ensures
        r == follow_step(
            match window { Some(w) => Some(*w), None => None },
            match from { Some(w) => Some(*w), None => None },
            *to,
            cross_monitor,
        ),
        r is MoveTo ==> r == FollowStep::MoveTo(to.id) && window is Some && window->0.is_floating
            && window->0.workspace_id != Some(to.id),
        cross_monitor && window is Some && window->0.is_floating && window->0.workspace_id != Some(to.id) ==> r
            == FollowStep::MoveTo(to.id),
{
    proof {
        law_follow_moves(
            match window { Some(w) => Some(*w), None => None },
            match from { Some(w) => Some(*w), None => None },
            *to,
            cross_monitor,
        );
    }
    match window {
        None => FollowStep::Gone,
        Some(w) => if !w.is_floating {
            FollowStep::NotFloating
        } else if w.workspace_id == Some(to.id) || (!cross_monitor && !same_output_exec(from, to)) {
            FollowStep::Stay
        } else {
            FollowStep::MoveTo(to.id)
        },
    }
}

/// The sticky windows after `add` makes window `id` the sticky window: the window an earlier
/// `add` made sticky (`target`) is dropped, and `id` is added with its flag.
pub open spec fn after_add(view: Map<u64, bool>, target: Option<u64>, id: u64, cross_monitor: bool) -> Map<u64, bool> {
    (match target {
        Some(t) => view.remove(t),
        None => view,
    }).insert(id, cross_monitor)
}

/// Running `add` again replaces the sticky window: after making `a` and then `b` sticky, `a`
/// is no longer sticky (unless it is `b`), `b` is with its own flag, and every other window
/// stays as it was.
pub proof fn law_add_replaces(view: Map<u64, bool>, target: Option<u64>, a: u64, ca: bool, b: u64, cb: bool, other: u64)
    requires
        other != a,
        other != b,
        !(target matches Some(t) && t == other),
    ensures
        a != b ==> !after_add(after_add(view, target, a, ca), Some(a), b, cb).contains_key(a),
        after_add(after_add(view, target, a, ca), Some(a), b, cb).contains_key(b),
        after_add(after_add(view, target, a, ca), Some(a), b, cb)[b] == cb,
        after_add(after_add(view, target, a, ca), Some(a), b, cb).contains_key(other) == view.contains_key(other),
        view.contains_key(other) ==> after_add(after_add(view, target, a, ca), Some(a), b, cb)[other] == view[other],
{
}

/// Sticky windows and whether each may follow across monitors; ids are distinct.
pub struct StickyPlugin {
    pub windows: Vec<(u64, bool)>,
    /// The window made sticky by `add`, if any; the other windows were registered by sticky
    /// scratchpads.
    pub target: Option<u64>,
}

/// The registry as a map from window id to the cross-monitor flag.
pub open spec fn sticky_map(s: Seq<(u64, bool)>) -> Map<u64, bool> {
    Map::new(
        |id: u64| exists|i: int| 0 <= i < s.len() && #[trigger] s[i].0 == id,
        |id: u64| s[choose|i: int| 0 <= i < s.len() && #[trigger] s[i].0 == id].1,
    )
}

/// No window is listed twice.
pub open spec fn ids_distinct(s: Seq<(u64, bool)>) -> bool {
    forall|i: int, j: int| 0 <= i < j < s.len() ==> #[trigger] s[i].0 != #[trigger] s[j].0
}

proof fn lemma_sticky_at(s: Seq<(u64, bool)>, i: int)
    requires
        ids_distinct(s),
        0 <= i < s.len(),
    ensures
        sticky_map(s).contains_key(s[i].0),
        sticky_map(s)[s[i].0] == s[i].1,
{
    let j = choose|j: int| 0 <= j < s.len() && #[trigger] s[j].0 == s[i].0;
    if j != i {
        if j < i {
            assert(s[j].0 != s[i].0);
        } else {
            assert(s[i].0 != s[j].0);
        }
    }
}

impl StickyPlugin {
    /// Ids are distinct, and the window made sticky by `add` is among the sticky windows.
    pub open spec fn wf(&self) -> bool {
        &&& ids_distinct(self.windows@)
        &&& self.target matches Some(t) ==> self.view().contains_key(t)
    }

    /// The sticky windows by id.
    pub open spec fn view(&self) -> Map<u64, bool> {
        sticky_map(self.windows@)
    }

    /// No sticky windows yet.
    pub fn new() -> (r: Self)
        ensures
            r.wf(),
            r.view() == Map::<u64, bool>::empty(),
            r.target is None,
    {
        let r = StickyPlugin { windows: Vec::new(), target: None };
        assert(r.view() =~= Map::<u64, bool>::empty());
        r
    }

    fn position(&self, id: u64) -> (r: Option<usize>)
        requires
            ids_distinct(self.windows@),
        ensures
            r is None <==> !self.view().contains_key(id),
            r matches Some(i) ==> i < self.windows@.len() && self.windows@[i as int].0 == id,
    {
        let n = self.windows.len();
        let mut k: usize = 0;
        while k < n
            invariant
                n == self.windows@.len(),
                0 <= k <= n,
                forall|j: int| 0 <= j < k ==> #[trigger] self.windows@[j].0 != id,
            decreases n - k,
        {
            if self.windows[k].0 == id {
                return Some(k);
            }
            k = k + 1;
        }
        None
    }

    fn set_entry(&mut self, id: u64, cross_monitor: bool)
        requires
            ids_distinct(old(self).windows@),
        ensures
            ids_distinct(final(self).windows@),
            final(self).view() == old(self).view().insert(id, cross_monitor),
            final(self).target == old(self).target,
    {
        let ghost before = self.windows@;
        match self.position(id) {
            Some(i) => {
                self.windows.set(i, (id, cross_monitor));
                proof {
                    let s = self.windows@;
                    assert forall|a: int, b: int| 0 <= a < b < s.len() implies #[trigger] s[a].0 != #[trigger] s[b].0 by {
                        assert(s[a].0 == before[a].0 && s[b].0 == before[b].0);
                    }
                    assert forall|x: u64| #[trigger] sticky_map(s).contains_key(x) <==> sticky_map(before).insert(id, cross_monitor).contains_key(x) by {
                        if sticky_map(s).contains_key(x) {
                            let j = choose|j: int| 0 <= j < s.len() && #[trigger] s[j].0 == x;
                            assert(before[j].0 == x);
                        }
                        if sticky_map(before).contains_key(x) {
                            let j = choose|j: int| 0 <= j < before.len() && #[trigger] before[j].0 == x;
                            assert(s[j].0 == x);
                        }
                    }
                    assert forall|x: u64| #[trigger] sticky_map(s).contains_key(x) implies sticky_map(s)[x] == sticky_map(before).insert(id, cross_monitor)[x] by {
                        let j = choose|j: int| 0 <= j < s.len() && #[trigger] s[j].0 == x;
                        lemma_sticky_at(s, j);
                        if j != i {
                            lemma_sticky_at(before, j);
                        }
                    }
                    assert(sticky_map(s) =~= sticky_map(before).insert(id, cross_monitor));
                }
            },
            None => {
                self.windows.push((id, cross_monitor));
                proof {
                    let s = self.windows@;
                    assert forall|a: int, b: int| 0 <= a < b < s.len() implies #[trigger] s[a].0 != #[trigger] s[b].0 by {
                        if b == before.len() {
                            assert(s[a] == before[a]);
                        }
                    }
                    assert forall|x: u64| #[trigger] sticky_map(s).contains_key(x) <==> sticky_map(before).insert(id, cross_monitor).contains_key(x) by {
                        if sticky_map(s).contains_key(x) {
                            let j = choose|j: int| 0 <= j < s.len() && #[trigger] s[j].0 == x;
                            if j < before.len() {
                                assert(before[j].0 == x);
                            }
                        }
                        if sticky_map(before).contains_key(x) {
                            let j = choose|j: int| 0 <= j < before.len() && #[trigger] before[j].0 == x;
                            assert(s[j].0 == x);
                        }
                        if x == id {
                            assert(s[before.len() as int].0 == x);
                        }
                    }
                    assert forall|x: u64| #[trigger] sticky_map(s).contains_key(x) implies sticky_map(s)[x] == sticky_map(before).insert(id, cross_monitor)[x] by {
                        let j = choose|j: int| 0 <= j < s.len() && #[trigger] s[j].0 == x;
                        lemma_sticky_at(s, j);
                        if j < before.len() {
                            assert(s[j] == before[j]);
                            lemma_sticky_at(before, j);
                        }
                    }
                    assert(sticky_map(s) =~= sticky_map(before).insert(id, cross_monitor));
                }
            },
        }
    }

    fn drop_entry(&mut self, id: u64)
        requires
            ids_distinct(old(self).windows@),
        ensures
            ids_distinct(final(self).windows@),
            final(self).view() == old(self).view().remove(id),
            final(self).target == old(self).target,
    {
        let ghost before = self.windows@;
        match self.position(id) {
            Some(i) => {
                self.windows.remove(i);
                proof {
                    let s = self.windows@;
                    assert(s == before.remove(i as int));
                    assert forall|a: int, b: int| 0 <= a < b < s.len() implies #[trigger] s[a].0 != #[trigger] s[b].0 by {
                        let a2 = if a < i { a } else { a + 1 };
                        let b2 = if b < i { b } else { b + 1 };
                        assert(s[a] == before[a2] && s[b] == before[b2]);
                    }
                    assert forall|x: u64| #[trigger] sticky_map(s).contains_key(x) <==> sticky_map(before).remove(id).contains_key(x) by {
                        if sticky_map(s).contains_key(x) {
                            let j = choose|j: int| 0 <= j < s.len() && #[trigger] s[j].0 == x;
                            let j2 = if j < i { j } else { j + 1 };
                            assert(s[j] == before[j2]);
                            assert(before[j2].0 == x);
                        }
                        if sticky_map(before).contains_key(x) && x != id {
                            let j = choose|j: int| 0 <= j < before.len() && #[trigger] before[j].0 == x;
                            if j < i {
                                assert(s[j] == before[j]);
                                assert(s[j].0 == x);
                            } else {
                                assert(s[j - 1] == before[j]);
                                assert(s[j - 1].0 == x);
                            }
                        }
                    }
                    assert forall|x: u64| #[trigger] sticky_map(s).contains_key(x) implies sticky_map(s)[x] == sticky_map(before).remove(id)[x] by {
                        let j = choose|j: int| 0 <= j < s.len() && #[trigger] s[j].0 == x;
                        lemma_sticky_at(s, j);
                        let j2 = if j < i { j } else { j + 1 };
                        assert(s[j] == before[j2]);
                        lemma_sticky_at(before, j2);
                    }
                    assert(sticky_map(s) =~= sticky_map(before).remove(id));
                }
            },
            None => {
                assert(sticky_map(before) =~= sticky_map(before).remove(id));
            },
        }
    }

    /// Registers a window as sticky (again, with the new flag, if it already is); the window
    /// made sticky by `add` stays the same.
    pub fn register(&mut self, id: u64, cross_monitor: bool)
        requires
            old(self).wf(),
        ensures
            final(self).wf(),
            final(self).view() == old(self).view().insert(id, cross_monitor),
            final(self).target == old(self).target,
    {
        self.set_entry(id, cross_monitor);
    }

    /// Removes a window from the sticky windows (no error when it is not one); when it is the
    /// window made sticky by `add`, there is no such window any more.
    pub fn unregister(&mut self, id: u64)
        requires
            old(self).wf(),
        ensures
            final(self).wf(),
            final(self).view() == old(self).view().remove(id),
            final(self).target == (if old(self).target == Some(id) { None } else { old(self).target }),
    {
        self.drop_entry(id);
        if self.target == Some(id) {
            self.target = None;
        }
    }

    /// Makes the focused window the sticky window; only a floating window can be. It replaces
    /// the window an earlier `add` made sticky, which stops being sticky; windows registered
    /// by sticky scratchpads stay (unless one of them is that earlier window).
    pub fn add(&mut self, focused: &Window, cross_monitor: bool) -> (r: Result<(), StickyError>)
        requires
            old(self).wf(),
        ensures
            final(self).wf(),
            focused.is_floating ==> {
                &&& r is Ok
                &&& final(self).target == Some(focused.id)
                &&& final(self).view() == after_add(old(self).view(), old(self).target, focused.id, cross_monitor)
            },
            !focused.is_floating ==> r == Err::<(), StickyError>(StickyError::NotFloating)
                && final(self).view() == old(self).view() && final(self).target == old(self).target,
    {
        if !focused.is_floating {
            return Err(StickyError::NotFloating);
        }
        if let Some(t) = self.target {
            self.drop_entry(t);
        }
        self.set_entry(focused.id, cross_monitor);
        self.target = Some(focused.id);
        Ok(())
    }

    /// Following the focused workspace matters only when a workspace gets focus.
    pub fn is_interested_in_event(&self, event: &PiriEvent) -> (r: bool)
        ensures
            r == (event matches PiriEvent::WorkspaceActivated { focused: true, .. }),
    {
        match event {
            PiriEvent::WorkspaceActivated { focused, .. } => *focused,
            _ => false,
        }
    }

    /// Applies what following the workspace found for one window: a window that is gone or
    /// no longer floats stops being sticky. The result says whether to resize it in proportion
    /// to a new output.
    pub fn after_follow(&mut self, id: u64, outcome: &FollowOutcome) -> (r: bool)
        requires
            old(self).wf(),
        ensures
            final(self).wf(),
            r == (outcome is OutputChanged),
            (outcome is WindowGone || outcome is NotFloating) ==> final(self).view() == old(self).view().remove(id)
                && final(self).target == (if old(self).target == Some(id) { None } else { old(self).target }),
            !(outcome is WindowGone || outcome is NotFloating) ==> final(self).view() == old(self).view()
                && final(self).target == old(self).target,
    {
        match outcome {
            FollowOutcome::Keep => false,
            FollowOutcome::WindowGone | FollowOutcome::NotFloating => {
                self.unregister(id);
                false
            },
            FollowOutcome::OutputChanged { .. } => true,
        }
    }
}

} // verus!
