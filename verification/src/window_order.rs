//! Weight-based ordering of the tiled columns of a workspace: weight lookup
//! with partial `app_id` matching, the stable target order, and the greedy
//! sequence of column moves that reaches it.
use vstd::prelude::*;
use crate::config::Config;
use crate::text::{is_infix, str_contains, str_eq};
use crate::window::{PiriEvent, Window};
use crate::workspace::{opt_view, workspace_filter_admits, workspace_matches_filter};

verus! {

/// Window order plugin configuration.
pub struct WindowOrderPluginConfig {
    /// `app_id` (or part of one) to weight; larger weights go further left.
    pub window_order: Vec<(String, u32)>,
    /// Weight of windows that no entry matches.
    pub default_weight: u32,
    /// Reorder automatically on layout changes and new windows.
    pub enable_event_listener: bool,
    /// Workspaces where automatic reordering applies (empty: all).
    pub workspaces: Vec<String>,
}

impl WindowOrderPluginConfig {
    /// The weights and the window order settings; no plugin without weights.
    pub fn from_config(config: Config) -> (r: Option<Self>)
        ensures
            config.window_order@.len() == 0 ==> r is None,
            config.window_order@.len() > 0 ==> (r matches Some(c) && c.window_order@ == config.window_order@
                && c.default_weight == config.piri.window_order.default_weight
                && c.enable_event_listener == config.piri.window_order.enable_event_listener
                && c.workspaces@ == config.piri.window_order.workspaces@),
    {
        if config.window_order.len() == 0 {
            None
        } else {
            Some(WindowOrderPluginConfig {
                window_order: config.window_order,
                default_weight: config.piri.window_order.default_weight,
                enable_event_listener: config.piri.window_order.enable_event_listener,
                workspaces: config.piri.window_order.workspaces,
            })
        }
    }
}

/// How a configured key is compared with an `app_id`, in the order the kinds are tried.
#[derive(PartialEq, Eq, Structural, Clone, Copy)]
pub enum KeyMatch {
    /// The key equals the `app_id`.
    Exact,
    /// The key occurs in the `app_id`.
    KeyInAppId,
    /// The `app_id` occurs in the key.
    AppIdInKey,
}

pub open spec fn key_matches(kind: KeyMatch, key: Seq<char>, app: Seq<char>) -> bool {
    match kind {
        KeyMatch::Exact => key == app,
        KeyMatch::KeyInAppId => is_infix(key, app),
        KeyMatch::AppIdInKey => is_infix(app, key),
    }
}

/// Weight of the first entry at or after `i` whose key matches `app` in this way.
pub open spec fn first_match_from(entries: Seq<(String, u32)>, app: Seq<char>, kind: KeyMatch, i: int) -> Option<u32>
    decreases entries.len() - i,
{
    if i < 0 || i >= entries.len() {
        None
    } else if key_matches(kind, entries[i].0@, app) {
        Some(entries[i].1)
    } else {
        first_match_from(entries, app, kind, i + 1)
    }
}

/// The weight of a window: exact key, else a key inside the `app_id`, else an
/// `app_id` inside a key, else the default (also for windows without `app_id`).
pub open spec fn window_weight(app_id: Option<Seq<char>>, entries: Seq<(String, u32)>, default: u32) -> u32 {
    match app_id {
        None => default,
        Some(a) => match first_match_from(entries, a, KeyMatch::Exact, 0) {
            Some(w) => w,
            None => match first_match_from(entries, a, KeyMatch::KeyInAppId, 0) {
                Some(w) => w,
                None => match first_match_from(entries, a, KeyMatch::AppIdInKey, 0) {
                    Some(w) => w,
                    None => default,
                },
            },
        },
    }
}

proof fn lemma_first_match_at(entries: Seq<(String, u32)>, app: Seq<char>, kind: KeyMatch, from: int, i: int)
    requires
        0 <= from <= i < entries.len(),
        key_matches(kind, entries[i].0@, app),
        forall|j: int| from <= j < i ==> !key_matches(kind, #[trigger] entries[j].0@, app),
    ensures
        first_match_from(entries, app, kind, from) == Some(entries[i].1),
    decreases i - from,
{
    if from < i {
        lemma_first_match_at(entries, app, kind, from + 1, i);
    }
}

/// A key equal to the `app_id` decides the weight (the first such key), whatever other keys
/// also match.
pub proof fn law_exact_key_wins(entries: Seq<(String, u32)>, app: Seq<char>, default: u32, i: int)
    requires
        0 <= i < entries.len(),
        entries[i].0@ == app,
        forall|j: int| 0 <= j < i ==> #[trigger] entries[j].0@ != app,
    ensures
        window_weight(Some(app), entries, default) == entries[i].1,
{
    lemma_first_match_at(entries, app, KeyMatch::Exact, 0, i);
}

proof fn lemma_no_match_from(entries: Seq<(String, u32)>, app: Seq<char>, kind: KeyMatch, from: int)
    requires
        0 <= from,
        forall|j: int| 0 <= j < entries.len() ==> !key_matches(kind, #[trigger] entries[j].0@, app),
    ensures
        first_match_from(entries, app, kind, from) is None,
    decreases entries.len() - from,
{
    if from < entries.len() {
        lemma_no_match_from(entries, app, kind, from + 1);
    }
}

/// A window whose `app_id` no key matches in any way, or that has no `app_id`, gets the
/// default weight.
pub proof fn law_unmatched_gets_default(entries: Seq<(String, u32)>, app: Option<Seq<char>>, default: u32)
    requires
        app matches Some(a) ==> forall|j: int| 0 <= j < entries.len() ==> {
            let k = #[trigger] entries[j].0@;
            k != a && !is_infix(k, a) && !is_infix(a, k)
        },
    ensures
        window_weight(app, entries, default) == default,
{
    if let Some(a) = app {
        lemma_no_match_from(entries, a, KeyMatch::Exact, 0);
        lemma_no_match_from(entries, a, KeyMatch::KeyInAppId, 0);
        lemma_no_match_from(entries, a, KeyMatch::AppIdInKey, 0);
    }
}

/// Without a key equal to the `app_id`, the first key that occurs in the `app_id` decides the
/// weight; without that either, the first key in which the `app_id` occurs decides it.
pub proof fn law_partial_key_order(entries: Seq<(String, u32)>, app: Seq<char>, default: u32, i: int)
    requires
        0 <= i < entries.len(),
        forall|j: int| 0 <= j < entries.len() ==> #[trigger] entries[j].0@ != app,
    ensures
        (is_infix(entries[i].0@, app) && forall|j: int| 0 <= j < i ==> !is_infix(#[trigger] entries[j].0@, app))
            ==> window_weight(Some(app), entries, default) == entries[i].1,
        ((forall|j: int| 0 <= j < entries.len() ==> !is_infix(#[trigger] entries[j].0@, app)) && is_infix(app, entries[i].0@)
            && forall|j: int| 0 <= j < i ==> !is_infix(app, #[trigger] entries[j].0@))
            ==> window_weight(Some(app), entries, default) == entries[i].1,
{
    lemma_no_match_from(entries, app, KeyMatch::Exact, 0);
    if is_infix(entries[i].0@, app) && forall|j: int| 0 <= j < i ==> !is_infix(#[trigger] entries[j].0@, app) {
        lemma_first_match_at(entries, app, KeyMatch::KeyInAppId, 0, i);
    }
    if (forall|j: int| 0 <= j < entries.len() ==> !is_infix(#[trigger] entries[j].0@, app)) && is_infix(app, entries[i].0@)
        && forall|j: int| 0 <= j < i ==> !is_infix(app, #[trigger] entries[j].0@) {
        lemma_no_match_from(entries, app, KeyMatch::KeyInAppId, 0);
        lemma_first_match_at(entries, app, KeyMatch::AppIdInKey, 0, i);
    }
}

fn key_match(kind: KeyMatch, key: &str, app: &str) -> (r: bool)
    ensures
        r == key_matches(kind, key@, app@),
{
    match kind {
        KeyMatch::Exact => str_eq(key, app),
        KeyMatch::KeyInAppId => str_contains(app, key),
        KeyMatch::AppIdInKey => str_contains(key, app),
    }
}

fn first_match(entries: &Vec<(String, u32)>, app: &str, kind: KeyMatch) -> (r: Option<u32>)
    ensures
        r == first_match_from(entries@, app@, kind, 0),
{
    let n = entries.len();
    let mut i: usize = 0;
    while i < n
        invariant
            n == entries@.len(),
            0 <= i <= n,
            first_match_from(entries@, app@, kind, 0) == first_match_from(entries@, app@, kind, i as int),
        decreases n - i,
    {
        if key_match(kind, entries[i].0.as_str(), app) {
            return Some(entries[i].1);
        }
        i = i + 1;
    }
    None
}

/// One tiled window of the workspace: its id, weight and current column.
#[derive(Clone, Copy)]
pub struct Candidate {
    pub window_id: u64,
    pub weight: u32,
    pub column: usize,
}

/// The tiled windows of workspace `ws`, in list order, with their weights and columns.
pub open spec fn candidates(windows: Seq<Window>, ws: u64, entries: Seq<(String, u32)>, default: u32) -> Seq<Candidate>
    decreases windows.len(),
{
    if windows.len() == 0 {
        Seq::empty()
    } else {
        let rest = candidates(windows.drop_last(), ws, entries, default);
        let w = windows.last();
        if !w.is_floating && w.workspace_id == Some(ws) {
            rest.push(Candidate {
                window_id: w.id,
                weight: window_weight(opt_string_view(w.app_id), entries, default),
                column: w.column(),
            })
        } else {
            rest
        }
    }
}

pub open spec fn opt_string_view(o: Option<String>) -> Option<Seq<char>> {
    match o {
        Some(s) => Some(s@),
        None => None,
    }
}

/// `a` (at list position `ia`) comes before `b` (at `ib`): larger weight first, then the
/// smaller current column, then list order.
pub open spec fn precedes(a: Candidate, ia: int, b: Candidate, ib: int) -> bool {
    ||| a.weight > b.weight
    ||| (a.weight == b.weight && a.column < b.column)
    ||| (a.weight == b.weight && a.column == b.column && ia < ib)
}

/// Where a window goes: its list position among the candidates, and its target column.
#[derive(Clone, Copy)]
pub struct ColumnTarget {
    pub window_id: u64,
    pub weight: u32,
    pub current_column: usize,
    /// Position of the window among the workspace's tiled windows.
    pub index: usize,
    /// 1-based target column.
    pub target_column: usize,
}

/// `targets` lists every candidate once, in `precedes` order, with target columns 1, 2, ...
pub open spec fn is_target_order(cands: Seq<Candidate>, targets: Seq<ColumnTarget>) -> bool {
    &&& targets.len() == cands.len()
    &&& forall|k: int| 0 <= k < targets.len() ==> {
        let t = #[trigger] targets[k];
        &&& t.index < cands.len()
        &&& t.window_id == cands[t.index as int].window_id
        &&& t.weight == cands[t.index as int].weight
        &&& t.current_column == cands[t.index as int].column
        &&& t.target_column == k + 1
    }
    &&& forall|j: int, k: int| 0 <= j < k < targets.len() ==> precedes(
        cands[targets[j].index as int],
        targets[j].index as int,
        cands[targets[k].index as int],
        targets[k].index as int,
    )
    &&& forall|i: int| 0 <= i < cands.len() ==> #[trigger] lists_index(targets, i)
}

/// In the target order heavier windows come first, and windows of equal weight keep their
/// current column order (ties in column keep list order).
pub proof fn law_heavier_left_ties_stable(cands: Seq<Candidate>, targets: Seq<ColumnTarget>, j: int, k: int)
    requires
        is_target_order(cands, targets),
        0 <= j < k < targets.len(),
    ensures
        targets[j].weight >= targets[k].weight,
        targets[j].weight == targets[k].weight ==> targets[j].current_column < targets[k].current_column
            || (targets[j].current_column == targets[k].current_column && targets[j].index < targets[k].index),
        targets[j].target_column < targets[k].target_column,
{
    let tj = targets[j];
    let tk = targets[k];
    assert(precedes(cands[tj.index as int], tj.index as int, cands[tk.index as int], tk.index as int));
}

/// Some target refers to list position `i`.
pub open spec fn lists_index(targets: Seq<ColumnTarget>, i: int) -> bool {
    exists|k: int| 0 <= k < targets.len() && #[trigger] targets[k].index == i
}

/// Window order plugin state.
pub struct WindowOrderPlugin {
    pub config: WindowOrderPluginConfig,
}

impl WindowOrderPlugin {
    pub fn new(config: WindowOrderPluginConfig) -> (r: Self)
        ensures
            r.config == config,
    {
        WindowOrderPlugin { config }
    }

    pub fn update_config(&mut self, config: WindowOrderPluginConfig)
        ensures
            final(self).config == config,
    {
        self.config = config;
    }

    /// Weight of a window by its `app_id`.
    pub fn get_window_order(app_id: Option<&str>, window_order: &Vec<(String, u32)>, default_weight: u32) -> (r: u32)
        ensures
            r == window_weight(opt_view(app_id), window_order@, default_weight),
    {
        match app_id {
            None => default_weight,
            Some(a) => match first_match(window_order, a, KeyMatch::Exact) {
                Some(w) => w,
                None => match first_match(window_order, a, KeyMatch::KeyInAppId) {
                    Some(w) => w,
                    None => match first_match(window_order, a, KeyMatch::AppIdInKey) {
                        Some(w) => w,
                        None => default_weight,
                    },
                },
            },
        }
    }

    /// Whether automatic ordering applies to the workspace (empty filter: every workspace).
    pub fn should_apply_to_workspace(idx: u8, name: Option<&str>, output: Option<&str>, workspaces: &[String]) -> (r: bool)
        ensures
            r == workspace_filter_admits(workspaces@, idx as nat, opt_view(name), opt_view(output)),
    {
        workspace_matches_filter(idx, name, output, workspaces)
    }

    /// The events that may call for reordering.
    pub fn is_interested_in_event(&self, event: &PiriEvent) -> (r: bool)
        ensures
            r == (event is WindowLayoutsChanged || event is WindowOpened || event is WindowToggleFloating),
    {
        match event {
            PiriEvent::WindowLayoutsChanged => true,
            PiriEvent::WindowOpened { .. } => true,
            PiriEvent::WindowToggleFloating { .. } => true,
            _ => false,
        }
    }

    /// Whether an event on the focused workspace triggers a reorder: only with the event
    /// listener enabled and when the workspace filter admits the workspace.
    pub fn event_triggers_reorder(&self, idx: u8, name: Option<&str>, output: Option<&str>) -> (r: bool)
        ensures
            r == (self.config.enable_event_listener && workspace_filter_admits(
                self.config.workspaces@,
                idx as nat,
                opt_view(name),
                opt_view(output),
            )),
    {
        if !self.config.enable_event_listener {
            return false;
        }
        Self::should_apply_to_workspace(idx, name, output, self.config.workspaces.as_slice())
    }
}

fn collect_candidates(windows: &[Window], ws: u64, entries: &Vec<(String, u32)>, default: u32) -> (r: Vec<Candidate>)
    ensures
        r@ == candidates(windows@, ws, entries@, default),
{
    let n = windows.len();
    let mut out: Vec<Candidate> = Vec::new();
    let mut i: usize = 0;
    while i < n
        invariant
            n == windows@.len(),
            0 <= i <= n,
            out@ == candidates(windows@.subrange(0, i as int), ws, entries@, default),
        decreases n - i,
    {
        let w = &windows[i];
        proof {
            assert(windows@.subrange(0, i as int + 1).drop_last() =~= windows@.subrange(0, i as int));
        }
        if !w.is_floating && w.workspace_id == Some(ws) {
            let app: Option<&str> = match &w.app_id {
                Some(a) => Some(a.as_str()),
                None => None,
            };
            let weight = WindowOrderPlugin::get_window_order(app, entries, default);
            out.push(Candidate { window_id: w.id, weight, column: w.current_column() });
        }
        i = i + 1;
    }
    assert(windows@.subrange(0, n as int) =~= windows@);
    out
}

fn precedes_exec(a: &Candidate, ia: usize, b: &Candidate, ib: usize) -> (r: bool)
    ensures
        r == precedes(*a, ia as int, *b, ib as int),
{
    a.weight > b.weight || (a.weight == b.weight && a.column < b.column) || (a.weight == b.weight
        && a.column == b.column && ia < ib)
}

/// The tiled windows of workspace `workspace_id` with their target columns, in target order:
/// larger weight further left; equal weights keep their current column order.
pub fn compute_targets(
    windows: &[Window],
    workspace_id: u64,
    window_order: &Vec<(String, u32)>,
    default_weight: u32,
) -> (r: Vec<ColumnTarget>)
    ensures
        is_target_order(candidates(windows@, workspace_id, window_order@, default_weight), r@),
{
    let cands = collect_candidates(windows, workspace_id, window_order, default_weight);
    let n = cands.len();
    let mut sorted: Vec<ColumnTarget> = Vec::new();
    let mut i: usize = 0;
    while i < n
        invariant
            n == cands@.len(),
            0 <= i <= n,
            sorted@.len() == i,
            forall|k: int| 0 <= k < i ==> (#[trigger] sorted@[k]).index < i,
            forall|k: int| 0 <= k < i ==> {
                let t = #[trigger] sorted@[k];
                &&& t.window_id == cands@[t.index as int].window_id
                &&& t.weight == cands@[t.index as int].weight
                &&& t.current_column == cands@[t.index as int].column
            },
            forall|j: int, k: int| 0 <= j < k < i ==> precedes(
                cands@[sorted@[j].index as int],
                sorted@[j].index as int,
                cands@[sorted@[k].index as int],
                sorted@[k].index as int,
            ),
            forall|e: int| 0 <= e < i ==> #[trigger] lists_index(sorted@, e),
        decreases n - i,
    {
        let c = cands[i];
        let mut p: usize = 0;
        while p < sorted.len() && !precedes_exec(&c, i, &cands[sorted[p].index], sorted[p].index)
            invariant
                n == cands@.len(),
                i < n,
                c == cands@[i as int],
                sorted@.len() == i,
                0 <= p <= i,
                forall|k: int| 0 <= k < i ==> (#[trigger] sorted@[k]).index < i,
                forall|k: int| 0 <= k < p ==> !precedes(c, i as int, cands@[sorted@[k].index as int], sorted@[k].index as int),
            decreases i - p,
        {
            p = p + 1;
        }
        let t = ColumnTarget { window_id: c.window_id, weight: c.weight, current_column: c.column, index: i, target_column: 0 };
        let ghost old_sorted = sorted@;
        sorted.insert(p, t);
        proof {
            assert(sorted@ =~= old_sorted.insert(p as int, t));
            assert forall|j: int, k: int| 0 <= j < k < i + 1 implies precedes(
                cands@[sorted@[j].index as int],
                sorted@[j].index as int,
                cands@[sorted@[k].index as int],
                sorted@[k].index as int,
            ) by {
                if j < p as int && k == p as int {
                    assert(!precedes(c, i as int, cands@[old_sorted[j].index as int], old_sorted[j].index as int));
                } else if j == p as int && k > p as int {
                    assert(precedes(c, i as int, cands@[old_sorted[p as int].index as int], old_sorted[p as int].index as int));
                    if k - 1 > p as int {
                        assert(precedes(
                            cands@[old_sorted[p as int].index as int],
                            old_sorted[p as int].index as int,
                            cands@[old_sorted[k - 1].index as int],
                            old_sorted[k - 1].index as int,
                        ));
                    }
                } else if j < p as int && k > p as int {
                    assert(precedes(
                        cands@[old_sorted[j].index as int],
                        old_sorted[j].index as int,
                        cands@[old_sorted[k - 1].index as int],
                        old_sorted[k - 1].index as int,
                    ));
                } else if j > p as int {
                    assert(precedes(
                        cands@[old_sorted[j - 1].index as int],
                        old_sorted[j - 1].index as int,
                        cands@[old_sorted[k - 1].index as int],
                        old_sorted[k - 1].index as int,
                    ));
                }
            }
            assert forall|e: int| 0 <= e < i + 1 implies #[trigger] lists_index(sorted@, e) by {
                if e == i as int {
                    assert(sorted@[p as int].index == e);
                } else {
                    assert(lists_index(old_sorted, e));
                    let k0 = choose|k: int| 0 <= k < old_sorted.len() && #[trigger] old_sorted[k].index == e;
                    if k0 < p as int {
                        assert(sorted@[k0].index == e);
                    } else {
                        assert(sorted@[k0 + 1].index == e);
                    }
                }
            }
        }
        i = i + 1;
    }
    let mut k: usize = 0;
    while k < n
        invariant
            n == cands@.len(),
            sorted@.len() == n,
            0 <= k <= n,
            forall|j: int| 0 <= j < n ==> (#[trigger] sorted@[j]).index < n,
            forall|j: int| 0 <= j < n ==> {
                let t = #[trigger] sorted@[j];
                &&& t.window_id == cands@[t.index as int].window_id
                &&& t.weight == cands@[t.index as int].weight
                &&& t.current_column == cands@[t.index as int].column
            },
            forall|j: int| 0 <= j < k ==> (#[trigger] sorted@[j]).target_column == j + 1,
            forall|a: int, b: int| 0 <= a < b < n ==> precedes(
                cands@[sorted@[a].index as int],
                sorted@[a].index as int,
                cands@[sorted@[b].index as int],
                sorted@[b].index as int,
            ),
            forall|e: int| 0 <= e < n ==> #[trigger] lists_index(sorted@, e),
        decreases n - k,
    {
        let mut t = sorted[k];
        t.target_column = k + 1;
        let ghost before = sorted@;
        sorted.set(k, t);
        proof {
            assert forall|e: int| 0 <= e < n implies #[trigger] lists_index(sorted@, e) by {
                assert(lists_index(before, e));
                let j0 = choose|j: int| 0 <= j < before.len() && #[trigger] before[j].index == e;
                assert(sorted@[j0].index == e);
            }
        }
        k = k + 1;
    }
    sorted
}

/// Whether some window is not yet in its target column.
pub fn needs_move(targets: &Vec<ColumnTarget>) -> (r: bool)
    ensures
        r == exists|k: int| 0 <= k < targets@.len() && #[trigger] targets@[k].current_column != targets@[k].target_column,
{
    let n = targets.len();
    let mut k: usize = 0;
    while k < n
        invariant
            n == targets@.len(),
            0 <= k <= n,
            forall|j: int| 0 <= j < k ==> #[trigger] targets@[j].current_column == targets@[j].target_column,
        decreases n - k,
    {
        if targets[k].current_column != targets[k].target_column {
            return true;
        }
        k = k + 1;
    }
    false
}


/// A column move: focus the window, then move its column from `from` to `to` (1-based).
#[derive(Clone, Copy, PartialEq, Eq, Structural)]
pub struct ColumnMove {
    pub window_id: u64,
    pub from: usize,
    pub to: usize,
}

/// Column of the window at position `c` after moving the column at `from` to `to`:
/// columns in between shift by one toward `from`.
pub open spec fn shift_col(c: usize, from: usize, to: usize) -> usize {
    if from < to && from < c && c <= to {
        (c - 1) as usize
    } else if from > to && to <= c && c < from {
        (c + 1) as usize
    } else {
        c
    }
}

/// Columns after moving window `w` to column `to`.
pub open spec fn apply_move(cols: Seq<usize>, w: int, to: usize) -> Seq<usize> {
    Seq::new(cols.len(), |k: int| if k == w { to } else { shift_col(cols[k], cols[w], to) })
}

/// Number of the first `i` windows already in their target column (window `k` targets `k + 1`).
pub open spec fn in_place_upto(cols: Seq<usize>, i: int) -> nat
    decreases i,
{
    if i <= 0 {
        0
    } else {
        in_place_upto(cols, i - 1) + if cols[i - 1] == i { 1nat } else { 0nat }
    }
}

pub open spec fn all_in_place(cols: Seq<usize>) -> bool {
    forall|k: int| 0 <= k < cols.len() ==> #[trigger] cols[k] == k + 1
}

pub open spec fn abs_diff(a: usize, b: usize) -> nat {
    if a >= b { (a - b) as nat } else { (b - a) as nat }
}

/// The best move among the first `k` windows, as (window, windows in place after it,
/// distance): most windows in place; then, when it completes the order, the focused window;
/// then the shortest distance; earlier windows win remaining ties.
pub open spec fn best_upto(cols: Seq<usize>, ids: Seq<u64>, focused: Option<u64>, k: int) -> Option<(int, nat, nat)>
    decreases k,
{
    if k <= 0 {
        None
    } else {
        let prev = best_upto(cols, ids, focused, k - 1);
        let j = k - 1;
        if cols[j] == j + 1 {
            prev
        } else {
            let after = apply_move(cols, j, (j + 1) as usize);
            let cnt = in_place_upto(after, after.len() as int);
            let dist = abs_diff(cols[j], (j + 1) as usize);
            let is_f = focused == Some(ids[j]);
            let take = match prev {
                None => true,
                Some(b) => if cnt > b.1 {
                    true
                } else if cnt == b.1 {
                    if cnt == cols.len() {
                        let bf = focused == Some(ids[b.0]);
                        if is_f && !bf {
                            true
                        } else if !is_f && bf {
                            false
                        } else {
                            dist < b.2
                        }
                    } else {
                        dist < b.2
                    }
                } else {
                    false
                },
            };
            if take {
                Some((j, cnt, dist))
            } else {
                prev
            }
        }
    }
}

/// The greedy plan with at most `fuel` moves: final columns and the moves
/// (window position, from column, to column).
pub open spec fn greedy(cols: Seq<usize>, ids: Seq<u64>, focused: Option<u64>, fuel: nat) -> (Seq<usize>, Seq<(int, usize, usize)>)
    decreases fuel,
{
    if fuel == 0 || all_in_place(cols) {
        (cols, Seq::empty())
    } else {
        match best_upto(cols, ids, focused, cols.len() as int) {
            None => (cols, Seq::empty()),
            Some(b) => {
                let j = b.0;
                let next = apply_move(cols, j, (j + 1) as usize);
                let rest = greedy(next, ids, focused, (fuel - 1) as nat);
                (rest.0, seq![(j, cols[j], (j + 1) as usize)] + rest.1)
            },
        }
    }
}

/// Replaying moves from `cols`: each move starts from the window's current column and
/// ends in its target column; the result is the columns after the last move.
pub open spec fn replays_to(cols: Seq<usize>, moves: Seq<(int, usize, usize)>, result: Seq<usize>) -> bool
    decreases moves.len(),
{
    if moves.len() == 0 {
        result == cols
    } else {
        let m = moves[0];
        &&& 0 <= m.0 < cols.len()
        &&& m.1 == cols[m.0]
        &&& m.2 == m.0 + 1
        &&& replays_to(apply_move(cols, m.0, m.2), moves.drop_first(), result)
    }
}

/// Current columns of the targets, in target order.
pub open spec fn current_columns(targets: Seq<ColumnTarget>) -> Seq<usize> {
    Seq::new(targets.len(), |k: int| targets[k].current_column)
}

pub open spec fn target_ids(targets: Seq<ColumnTarget>) -> Seq<u64> {
    Seq::new(targets.len(), |k: int| targets[k].window_id)
}

pub open spec fn moves_view(moves: Seq<(int, usize, usize)>, ids: Seq<u64>) -> Seq<ColumnMove> {
    Seq::new(moves.len(), |k: int| ColumnMove { window_id: ids[moves[k].0], from: moves[k].1, to: moves[k].2 })
}

/// Largest number of moves a plan makes.
pub const MAX_MOVES: usize = 100;

fn in_place_count(cols: &Vec<usize>) -> (r: usize)
    ensures
        r == in_place_upto(cols@, cols@.len() as int),
{
    let n = cols.len();
    let mut c: usize = 0;
    let mut i: usize = 0;
    while i < n
        invariant
            n == cols@.len(),
            0 <= i <= n,
            c == in_place_upto(cols@, i as int),
            c <= i,
        decreases n - i,
    {
        if cols[i] == i + 1 {
            c = c + 1;
        }
        i = i + 1;
    }
    c
}

fn all_in_place_exec(cols: &Vec<usize>) -> (r: bool)
    ensures
        r == all_in_place(cols@),
{
    let n = cols.len();
    let mut i: usize = 0;
    while i < n
        invariant
            n == cols@.len(),
            0 <= i <= n,
            forall|k: int| 0 <= k < i ==> #[trigger] cols@[k] == k + 1,
        decreases n - i,
    {
        if cols[i] != i + 1 {
            return false;
        }
        i = i + 1;
    }
    true
}

fn apply_move_exec(cols: &Vec<usize>, w: usize, to: usize) -> (r: Vec<usize>)
    requires
        w < cols@.len(),
    ensures
        r@ == apply_move(cols@, w as int, to),
{
    let n = cols.len();
    let from = cols[w];
    let mut out: Vec<usize> = Vec::new();
    let mut k: usize = 0;
    while k < n
        invariant
            n == cols@.len(),
            w < n,
            from == cols@[w as int],
            0 <= k <= n,
            out@.len() == k,
            forall|j: int| 0 <= j < k ==> #[trigger] out@[j] == (if j == w { to } else { shift_col(cols@[j], from, to) }),
        decreases n - k,
    {
        let c = cols[k];
        let v = if k == w {
            to
        } else if from < to && from < c && c <= to {
            c - 1
        } else if from > to && to <= c && c < from {
            c + 1
        } else {
            c
        };
        out.push(v);
        k = k + 1;
    }
    assert(out@ =~= apply_move(cols@, w as int, to));
    out
}

fn find_best(cols: &Vec<usize>, ids: &Vec<u64>, focused: Option<u64>) -> (r: Option<usize>)
    requires
        ids@.len() == cols@.len(),
    ensures
        match best_upto(cols@, ids@, focused, cols@.len() as int) {
            Some(b) => r == Some(b.0 as usize) && 0 <= b.0 < cols@.len(),
            None => r is None,
        },
{
    let n = cols.len();
    let mut best: Option<usize> = None;
    let mut best_count: usize = 0;
    let mut best_dist: usize = 0;
    let mut k: usize = 0;
    while k < n
        invariant
            n == cols@.len(),
            ids@.len() == n,
            0 <= k <= n,
            best_upto(cols@, ids@, focused, k as int) == match best {
                Some(j) => Some((j as int, best_count as nat, best_dist as nat)),
                None => None::<(int, nat, nat)>,
            },
            best matches Some(j) ==> j < k,
        decreases n - k,
    {
        if cols[k] != k + 1 {
            let to = k + 1;
            let after = apply_move_exec(cols, k, to);
            let cnt = in_place_count(&after);
            let cur = cols[k];
            let dist = if cur >= to { cur - to } else { to - cur };
            let is_f = match focused {
                Some(f) => f == ids[k],
                None => false,
            };
            let take = match best {
                None => true,
                Some(b) => {
                    if cnt > best_count {
                        true
                    } else if cnt == best_count {
                        if cnt == n {
                            let bf = match focused {
                                Some(f) => f == ids[b],
                                None => false,
                            };
                            if is_f && !bf {
                                true
                            } else if !is_f && bf {
                                false
                            } else {
                                dist < best_dist
                            }
                        } else {
                            dist < best_dist
                        }
                    } else {
                        false
                    }
                },
            };
            if take {
                best = Some(k);
                best_count = cnt;
                best_dist = dist;
            }
        }
        k = k + 1;
    }
    proof {
        if best is Some {
            lemma_best_in_range(cols@, ids@, focused, n as int);
        }
    }
    best
}

proof fn lemma_best_in_range(cols: Seq<usize>, ids: Seq<u64>, focused: Option<u64>, k: int)
    requires
        0 <= k <= cols.len(),
    ensures
        best_upto(cols, ids, focused, k) matches Some(b) ==> 0 <= b.0 < k && cols[b.0] != b.0 + 1,
        (exists|j: int| 0 <= j < k && cols[j] != j + 1) ==> best_upto(cols, ids, focused, k) is Some,
    decreases k,
{
    if k > 0 {
        lemma_best_in_range(cols, ids, focused, k - 1);
        if exists|j: int| 0 <= j < k && cols[j] != j + 1 {
            let j = choose|j: int| 0 <= j < k && cols[j] != j + 1;
            if j < k - 1 {
                assert(exists|j: int| 0 <= j < k - 1 && cols[j] != j + 1);
            }
        }
    }
}

/// The column moves that bring `targets` into target order: the greedy plan with at
/// most `MAX_MOVES` moves, trying windows in target order.
pub fn plan_moves(targets: &Vec<ColumnTarget>, focused: Option<u64>) -> (r: Vec<ColumnMove>)
    ensures
        r@ == moves_view(
            greedy(current_columns(targets@), target_ids(targets@), focused, MAX_MOVES as nat).1,
            target_ids(targets@),
        ),
{
    let n = targets.len();
    let mut cols: Vec<usize> = Vec::new();
    let mut ids: Vec<u64> = Vec::new();
    let mut i: usize = 0;
    while i < n
        invariant
            n == targets@.len(),
            0 <= i <= n,
            cols@ =~= current_columns(targets@).subrange(0, i as int),
            ids@ =~= target_ids(targets@).subrange(0, i as int),
        decreases n - i,
    {
        cols.push(targets[i].current_column);
        ids.push(targets[i].window_id);
        i = i + 1;
    }
    assert(cols@ =~= current_columns(targets@));
    assert(ids@ =~= target_ids(targets@));
    let ghost c0 = cols@;
    let ghost total = greedy(c0, ids@, focused, MAX_MOVES as nat);
    let ghost mut done: Seq<(int, usize, usize)> = Seq::empty();
    let mut moves: Vec<ColumnMove> = Vec::new();
    let mut iterations: usize = 0;
    while iterations < MAX_MOVES
        invariant
            0 <= iterations <= MAX_MOVES,
            ids@ == target_ids(targets@),
            cols@.len() == n,
            ids@.len() == n,
            total == greedy(c0, ids@, focused, MAX_MOVES as nat),
            total.0 == greedy(cols@, ids@, focused, (MAX_MOVES - iterations) as nat).0,
            total.1 == done + greedy(cols@, ids@, focused, (MAX_MOVES - iterations) as nat).1,
            moves@ == moves_view(done, ids@),
        ensures
            total.1 =~= done,
            moves@ == moves_view(done, ids@),
        decreases MAX_MOVES - iterations,
    {
        let ghost fuel = (MAX_MOVES - iterations) as nat;
        if all_in_place_exec(&cols) {
            assert(done + Seq::<(int, usize, usize)>::empty() =~= done);
            break;
        }
        match find_best(&cols, &ids, focused) {
            Some(j) => {
                let to = j + 1;
                let from = cols[j];
                proof {
                    let next = apply_move(cols@, j as int, to);
                    let rest = greedy(next, ids@, focused, (fuel - 1) as nat);
                    assert(greedy(cols@, ids@, focused, fuel).1 == seq![(j as int, from, to)] + rest.1);
                    assert(done + (seq![(j as int, from, to)] + rest.1) =~= (done + seq![(j as int, from, to)]) + rest.1);
                    done = done + seq![(j as int, from, to)];
                }
                moves.push(ColumnMove { window_id: ids[j], from, to });
                cols = apply_move_exec(&cols, j, to);
                iterations = iterations + 1;
                assert(moves@ =~= moves_view(done, ids@));
            },
            None => {
                assert(done + Seq::<(int, usize, usize)>::empty() =~= done);
                break;
            },
        }
    }
    assert(done =~= total.1);
    moves
}

/// Replaying the greedy plan's moves gives its final columns, and the plan ends either with
/// every window in its target column or after `fuel` moves.
pub proof fn lemma_greedy_replays(cols: Seq<usize>, ids: Seq<u64>, focused: Option<u64>, fuel: nat)
    requires
        cols.len() <= usize::MAX,
    ensures
        replays_to(cols, greedy(cols, ids, focused, fuel).1, greedy(cols, ids, focused, fuel).0),
        all_in_place(greedy(cols, ids, focused, fuel).0) || greedy(cols, ids, focused, fuel).1.len() == fuel,
    decreases fuel,
{
    if fuel == 0 || all_in_place(cols) {
    } else {
        lemma_best_in_range(cols, ids, focused, cols.len() as int);
        let k = choose|k: int| 0 <= k < cols.len() && cols[k] != k + 1;
        let b = best_upto(cols, ids, focused, cols.len() as int).unwrap();
        let j = b.0;
        let next = apply_move(cols, j, (j + 1) as usize);
        lemma_greedy_replays(next, ids, focused, (fuel - 1) as nat);
        let g = greedy(cols, ids, focused, fuel);
        let rest = greedy(next, ids, focused, (fuel - 1) as nat);
        assert(g.1.drop_first() =~= rest.1);
        assert(g.1[0] == (j, cols[j], (j + 1) as usize));
        assert(apply_move(next, 0, 0).len() == cols.len());
    }
}

/// The plan reaches the weight order: for the tiled windows of a workspace in target order,
/// replaying the planned moves from their current columns (each move shifting the columns
/// between) gives the plan's final columns; when the plan has fewer than `MAX_MOVES` moves,
/// the window `k`-th in target order ends in column `k + 1`, so that, from left to right,
/// weights do not increase and windows of equal weight keep their earlier column order.
pub proof fn law_plan_reaches_weight_order(
    windows: Seq<Window>,
    ws: u64,
    entries: Seq<(String, u32)>,
    default: u32,
    targets: Seq<ColumnTarget>,
    focused: Option<u64>,
)
    requires
        is_target_order(candidates(windows, ws, entries, default), targets),
        targets.len() <= usize::MAX,
    ensures
        ({
            let cols = current_columns(targets);
            let g = greedy(cols, target_ids(targets), focused, MAX_MOVES as nat);
            &&& replays_to(cols, g.1, g.0)
            &&& g.1.len() < MAX_MOVES ==> forall|k: int| 0 <= k < targets.len() ==> #[trigger] g.0[k] == k + 1
            &&& g.1.len() < MAX_MOVES ==> forall|j: int, k: int| 0 <= j < k < targets.len() ==> {
                &&& g.0[j] < g.0[k]
                &&& targets[j].weight >= targets[k].weight
                &&& targets[j].weight == targets[k].weight ==> targets[j].current_column < targets[k].current_column
                    || (targets[j].current_column == targets[k].current_column && targets[j].index < targets[k].index)
            }
        }),
{
    let cols = current_columns(targets);
    let ids = target_ids(targets);
    lemma_greedy_replays(cols, ids, focused, MAX_MOVES as nat);
    let g = greedy(cols, ids, focused, MAX_MOVES as nat);
    lemma_greedy_len(cols, ids, focused, MAX_MOVES as nat);
    if g.1.len() < MAX_MOVES {
        assert forall|j: int, k: int| 0 <= j < k < targets.len() implies {
            &&& g.0[j] < g.0[k]
            &&& targets[j].weight >= targets[k].weight
            &&& targets[j].weight == targets[k].weight ==> targets[j].current_column < targets[k].current_column
                || (targets[j].current_column == targets[k].current_column && targets[j].index < targets[k].index)
        } by {
            law_heavier_left_ties_stable(candidates(windows, ws, entries, default), targets, j, k);
            assert(g.0[j] == j + 1);
            assert(g.0[k] == k + 1);
        }
    }
}

/// The greedy plan keeps one column per window.
proof fn lemma_greedy_len(cols: Seq<usize>, ids: Seq<u64>, focused: Option<u64>, fuel: nat)
    ensures
        greedy(cols, ids, focused, fuel).0.len() == cols.len(),
    decreases fuel,
{
    if fuel == 0 || all_in_place(cols) {
    } else {
        match best_upto(cols, ids, focused, cols.len() as int) {
            None => {},
            Some(b) => {
                lemma_greedy_len(apply_move(cols, b.0, (b.0 + 1) as usize), ids, focused, (fuel - 1) as nat);
            },
        }
    }
}

} // verus!
