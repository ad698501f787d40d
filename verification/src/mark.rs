//! Named marks on windows, kept in memory: toggling jumps to a marked window or
//! binds the focused one, with an optional jump back.
use vstd::prelude::*;
use vstd::string::*;
use crate::config::Config;
use crate::named::{distinct, find, lemma_to_map_at, put, remove_named, to_map};
use crate::scratchpads::{exists_in, window_exists};
use crate::window::Window;

verus! {

/// Mark plugin configuration.
pub struct MarkPluginConfig {
    /// Toggling the mark of the focused window jumps back to the window focused before.
    pub refocus: bool,
}

impl MarkPluginConfig {
    /// Always present; marks are made at run time.
    pub fn from_config(config: &Config) -> (r: Option<Self>)
        ensures
            r matches Some(c) && c.refocus == config.piri.mark.refocus,
    {
        Some(MarkPluginConfig { refocus: config.piri.mark.refocus })
    }
}

/// What a mark toggle does.
#[derive(Debug, PartialEq, Eq, Structural)]
pub enum MarkAction {
    /// Focus the marked window.
    Focus(u64),
    /// The marked window is focused and refocus is on: go back to this window.
    Refocus(u64),
    /// The mark now names this window (the focused one).
    Bound(u64),
}

/// Why a mark operation fails.
#[derive(Debug, PartialEq, Eq, Structural)]
pub enum MarkError {
    /// Binding needs a focused window.
    NoFocusedWindow,
}

/// Mark plugin state.
pub struct MarkPlugin {
    /// Mark name and window id.
    pub marks: Vec<(String, u64)>,
    /// Window focused before the last jump to a mark.
    pub previous_window: Option<u64>,
    pub refocus: bool,
}

/// Deleting a mark twice is deleting it once, and a deleted mark is gone.
pub proof fn law_delete_idempotent(marks: Map<Seq<char>, u64>, name: Seq<char>)
    ensures
        marks.remove(name).remove(name) == marks.remove(name),
        !marks.remove(name).contains_key(name),
{
    assert(marks.remove(name).remove(name) =~= marks.remove(name));
}

/// Marks, remembered window and outcome after toggling mark `name`: a mark naming a live
/// window jumps to it (or back to the remembered window, with refocus on and the marked
/// window focused); otherwise the focused window is bound.
pub open spec fn mark_toggled(
    marks: Map<Seq<char>, u64>,
    previous: Option<u64>,
    refocus: bool,
    name: Seq<char>,
    windows: Seq<Window>,
    focused: Option<u64>,
) -> (Map<Seq<char>, u64>, Option<u64>, Result<MarkAction, MarkError>) {
    if marks.contains_key(name) && exists_in(windows, marks[name]) {
        let id = marks[name];
        if refocus && focused == Some(id) && previous is Some {
            (marks, previous, Ok(MarkAction::Refocus(previous->0)))
        } else {
            (marks, focused, Ok(MarkAction::Focus(id)))
        }
    } else {
        match focused {
            Some(f) => (marks.insert(name, f), previous, Ok(MarkAction::Bound(f))),
            None => (marks, previous, Err(MarkError::NoFocusedWindow)),
        }
    }
}

/// Toggling a mark that names a live window jumps back (`Refocus`) only when refocus is on,
/// the marked window has focus and a window is remembered, and then to the remembered
/// window; in every other case it focuses the marked window and remembers the focused one.
/// A mark that names no live window binds the focused window (or fails without one). The
/// marks change only by that binding.
pub proof fn law_toggle_outcomes(
    marks: Map<Seq<char>, u64>,
    previous: Option<u64>,
    refocus: bool,
    name: Seq<char>,
    windows: Seq<Window>,
    focused: Option<u64>,
)
    ensures
        ({
            let (m, p, r) = mark_toggled(marks, previous, refocus, name, windows, focused);
            &&& marks.contains_key(name) && exists_in(windows, marks[name]) ==> {
                &&& m == marks
                &&& (r matches Ok(MarkAction::Refocus(w)) ==> refocus && focused == Some(marks[name]) && previous == Some(w) && p == previous)
                &&& (!refocus || focused != Some(marks[name]) || previous is None) ==> r == Ok::<MarkAction, MarkError>(
                    MarkAction::Focus(marks[name]),
                ) && p == focused
                &&& (refocus && focused == Some(marks[name]) && previous is Some) ==> r == Ok::<MarkAction, MarkError>(
                    MarkAction::Refocus(previous->0),
                )
            }
            &&& !(marks.contains_key(name) && exists_in(windows, marks[name])) ==> {
                &&& p == previous
                &&& focused matches Some(f) ==> r == Ok::<MarkAction, MarkError>(MarkAction::Bound(f)) && m == marks.insert(name, f)
                &&& focused is None ==> r == Err::<MarkAction, MarkError>(MarkError::NoFocusedWindow) && m == marks
            }
            &&& !refocus ==> !(r matches Ok(MarkAction::Refocus(_)))
        }),
{
}

/// The first toggle of a mark binds the focused window `w`; toggling again from another
/// window `e`, while `w` lives, jumps to `w`; toggling once more on `w` with refocus on jumps
/// back to `e`.
pub proof fn law_toggle_back_and_forth(
    marks: Map<Seq<char>, u64>,
    previous: Option<u64>,
    name: Seq<char>,
    windows: Seq<Window>,
    w: u64,
    e: u64,
)
    requires
        !marks.contains_key(name),
        exists_in(windows, w),
        w != e,
    ensures
        ({
            let (m1, p1, r1) = mark_toggled(marks, previous, true, name, windows, Some(w));
            let (m2, p2, r2) = mark_toggled(m1, p1, true, name, windows, Some(e));
            let (m3, p3, r3) = mark_toggled(m2, p2, true, name, windows, Some(w));
            &&& r1 == Ok::<MarkAction, MarkError>(MarkAction::Bound(w))
            &&& r2 == Ok::<MarkAction, MarkError>(MarkAction::Focus(w))
            &&& r3 == Ok::<MarkAction, MarkError>(MarkAction::Refocus(e))
            &&& m3 == marks.insert(name, w)
        }),
{
}

impl MarkPlugin {
    /// Names are distinct.
    pub open spec fn wf(&self) -> bool {
        distinct(self.marks@)
    }

    /// The marks by name.
    pub open spec fn view_marks(&self) -> Map<Seq<char>, u64> {
        to_map(self.marks@)
    }

    /// No marks yet.
    pub fn new(config: MarkPluginConfig) -> (r: Self)
        ensures
            r.wf(),
            r.view_marks() == Map::<Seq<char>, u64>::empty(),
            r.previous_window is None,
            r.refocus == config.refocus,
    {
        let r = MarkPlugin { marks: Vec::new(), previous_window: None, refocus: config.refocus };
        assert(r.view_marks() =~= Map::<Seq<char>, u64>::empty());
        r
    }

    /// Takes the refocus setting; marks stay.
    pub fn update_config(&mut self, config: MarkPluginConfig)
        ensures
            final(self).marks == old(self).marks,
            final(self).previous_window == old(self).previous_window,
            final(self).refocus == config.refocus,
    {
        self.refocus = config.refocus;
    }

    /// Removes the mark; removing an absent mark is no error.
    pub fn delete(&mut self, name: &str)
        requires
            old(self).wf(),
        ensures
            final(self).wf(),
            final(self).view_marks() == old(self).view_marks().remove(name@),
            final(self).previous_window == old(self).previous_window,
            final(self).refocus == old(self).refocus,
    {
        remove_named(&mut self.marks, name);
    }

    /// Binds the mark to the focused window, replacing any earlier binding.
    pub fn add(&mut self, name: &str, focused: Option<u64>) -> (r: Result<u64, MarkError>)
        requires
            old(self).wf(),
        ensures
            final(self).wf(),
            final(self).previous_window == old(self).previous_window,
            final(self).refocus == old(self).refocus,
            match focused {
                Some(f) => r == Ok::<u64, MarkError>(f) && final(self).view_marks() == old(self).view_marks().insert(name@, f),
                None => r == Err::<u64, MarkError>(MarkError::NoFocusedWindow) && final(self).view_marks() == old(self).view_marks(),
            },
    {
        match focused {
            Some(f) => {
                put(&mut self.marks, String::from_str(name), f);
                Ok(f)
            },
            None => Err(MarkError::NoFocusedWindow),
        }
    }

    /// If the mark names a live window, jump to it (or, with refocus on and that window
    /// focused, back to the window focused before); otherwise bind the focused window.
    pub fn toggle(&mut self, name: &str, windows: &[Window], focused: Option<u64>) -> (r: Result<MarkAction, MarkError>)
        requires
            old(self).wf(),
        ensures
            final(self).wf(),
            final(self).refocus == old(self).refocus,
            (final(self).view_marks(), final(self).previous_window, r) == mark_toggled(
                old(self).view_marks(),
                old(self).previous_window,
                old(self).refocus,
                name@,
                windows@,
                focused,
            ),
            !old(self).refocus ==> !(r matches Ok(MarkAction::Refocus(_))),
            (old(self).view_marks().contains_key(name@) && exists_in(windows@, old(self).view_marks()[name@])
                && (!old(self).refocus || focused != Some(old(self).view_marks()[name@]))) ==> r == Ok::<MarkAction, MarkError>(
                MarkAction::Focus(old(self).view_marks()[name@]),
            ) && final(self).previous_window == focused,
    {
        proof {
            law_toggle_outcomes(old(self).view_marks(), old(self).previous_window, old(self).refocus, name@, windows@, focused);
        }
        let live = match find(&self.marks, name) {
            Some(i) => {
                proof {
                    lemma_to_map_at(self.marks@, i as int);
                }
                let id = self.marks[i].1;
                if window_exists(windows, id) { Some(id) } else { None }
            },
            None => None,
        };
        match live {
            Some(id) => {
                if self.refocus && focused == Some(id) {
                    if let Some(p) = self.previous_window {
                        return Ok(MarkAction::Refocus(p));
                    }
                }
                self.previous_window = focused;
                Ok(MarkAction::Focus(id))
            },
            None => match self.add(name, focused) {
                Ok(f) => Ok(MarkAction::Bound(f)),
                Err(e) => Err(e),
            },
        }
    }
}

} // verus!
