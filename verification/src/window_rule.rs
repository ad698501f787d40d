//! Window rules: the first matching rule places a new window (optionally
//! locking it to the workspace) and runs focus commands with de-duplication.
use std::collections::{HashMap, HashSet};
use vstd::prelude::*;
use vstd::string::*;
use crate::config::{Config, WindowRuleConfig};
use crate::fcitx5::opt_vecs;
use crate::matching::{opt_str_view, opt_vec_ref, window_matches, PatternError, WindowMatcher};
use crate::text::{decimal, str_eq, str_is_decimal_of};
use crate::window::{PiriEvent, Workspace};
use crate::workspace::{display_prefix, extract_display_prefix, split_at_sign, split_once_at};

verus! {

broadcast use vstd::std_specs::hash::group_hash_axioms;

/// Window rule plugin configuration.
pub struct WindowRulePluginConfig {
    pub rules: Vec<WindowRuleConfig>,
}

impl WindowRulePluginConfig {
    /// The configured rules; no plugin without rules.
    pub fn from_config(config: Config) -> (r: Option<Self>)
        ensures
            config.window_rule@.len() == 0 ==> r is None,
            config.window_rule@.len() > 0 ==> (r matches Some(c) && c.rules@ == config.window_rule@),
    {
        if config.window_rule.len() == 0 {
            None
        } else {
            Some(WindowRulePluginConfig { rules: config.window_rule })
        }
    }
}

/// Which rules take part in a search.
#[derive(Clone, Copy, PartialEq, Eq, Structural)]
pub enum RuleScope {
    /// Every rule (placing a new window).
    All,
    /// Only rules with a focus command (a focus change).
    WithFocusCommand,
}

/// Position of the first rule at or after `i` in scope that matches the window.
pub open spec fn first_rule_from(
    rules: Seq<WindowRuleConfig>,
    scope: RuleScope,
    app_id: Option<Seq<char>>,
    title: Option<Seq<char>>,
    i: int,
) -> Result<Option<int>, Seq<char>>
    decreases rules.len() - i,
{
    if i < 0 || i >= rules.len() {
        Ok(None)
    } else if scope == RuleScope::WithFocusCommand && rules[i].focus_command is None {
        first_rule_from(rules, scope, app_id, title, i + 1)
    } else {
        match window_matches(opt_vecs(rules[i].app_id), opt_vecs(rules[i].title), app_id, title) {
            Err(p) => Err(p),
            Ok(true) => Ok(Some(i)),
            Ok(false) => first_rule_from(rules, scope, app_id, title, i + 1),
        }
    }
}

/// A target workspace without its lock suffix, and whether it had one (`"dev!"` locks to "dev").
pub open spec fn lock_target(s: Seq<char>) -> (Seq<char>, bool) {
    if s.len() > 0 && s.last() == '!' {
        (s.drop_last(), true)
    } else {
        (s, false)
    }
}

/// Rule `j` takes part in a search of this scope.
pub open spec fn in_scope(rules: Seq<WindowRuleConfig>, scope: RuleScope, j: int) -> bool {
    scope == RuleScope::All || rules[j].focus_command is Some
}

proof fn lemma_first_rule_props(
    rules: Seq<WindowRuleConfig>,
    scope: RuleScope,
    app_id: Option<Seq<char>>,
    title: Option<Seq<char>>,
    i: int,
)
    requires
        0 <= i,
    ensures
        first_rule_from(rules, scope, app_id, title, i) matches Ok(Some(k)) ==> {
            &&& i <= k < rules.len()
            &&& in_scope(rules, scope, k)
            &&& window_matches(opt_vecs(rules[k].app_id), opt_vecs(rules[k].title), app_id, title) == Ok::<bool, Seq<char>>(true)
            &&& forall|j: int| i <= j < k && #[trigger] in_scope(rules, scope, j) ==> window_matches(
                opt_vecs(rules[j].app_id), opt_vecs(rules[j].title), app_id, title) == Ok::<bool, Seq<char>>(false)
        },
        first_rule_from(rules, scope, app_id, title, i) is Ok && first_rule_from(rules, scope, app_id, title, i)->Ok_0 is None
            ==> forall|j: int| i <= j < rules.len() && #[trigger] in_scope(rules, scope, j) ==> window_matches(
            opt_vecs(rules[j].app_id), opt_vecs(rules[j].title), app_id, title) == Ok::<bool, Seq<char>>(false),
    decreases rules.len() - i,
{
    if i < rules.len() {
        lemma_first_rule_props(rules, scope, app_id, title, i + 1);
    }
}

/// The rule a window gets is the first rule in scope (every rule, or only those with a focus
/// command) that matches it; every rule in scope before it does not match, and when none is
/// found no rule in scope matches.
pub proof fn law_first_matching_rule(
    rules: Seq<WindowRuleConfig>,
    scope: RuleScope,
    app_id: Option<Seq<char>>,
    title: Option<Seq<char>>,
)
    ensures
        first_rule_from(rules, scope, app_id, title, 0) matches Ok(Some(k)) ==> {
            &&& 0 <= k < rules.len()
            &&& in_scope(rules, scope, k)
            &&& window_matches(opt_vecs(rules[k].app_id), opt_vecs(rules[k].title), app_id, title) == Ok::<bool, Seq<char>>(true)
            &&& forall|j: int| 0 <= j < k && #[trigger] in_scope(rules, scope, j) ==> window_matches(
                opt_vecs(rules[j].app_id), opt_vecs(rules[j].title), app_id, title) == Ok::<bool, Seq<char>>(false)
        },
        first_rule_from(rules, scope, app_id, title, 0) == Ok::<Option<int>, Seq<char>>(None) ==> forall|j: int|
            0 <= j < rules.len() && #[trigger] in_scope(rules, scope, j) ==> window_matches(
            opt_vecs(rules[j].app_id), opt_vecs(rules[j].title), app_id, title) == Ok::<bool, Seq<char>>(false),
{
    lemma_first_rule_props(rules, scope, app_id, title, 0);
}

/// A target locks exactly when it ends in `!`; the target is its workspace part followed by
/// that `!`.
pub proof fn law_lock_suffix(s: Seq<char>)
    ensures
        lock_target(s).1 <==> (s.len() > 0 && s[s.len() - 1] == '!'),
        lock_target(s).1 ==> lock_target(s).0.push('!') == s,
        !lock_target(s).1 ==> lock_target(s).0 == s,
{
    if s.len() > 0 && s.last() == '!' {
        assert(s.drop_last().push('!') =~= s);
    }
}

/// The workspace part designates the workspace by name or index.
pub open spec fn designates(ws: Workspace, target_name: Seq<char>) -> bool {
    (ws.name is Some && ws.name->0@ == target_name) || decimal(ws.idx as nat) == target_name
}

/// The workspace is on the named output or on an output with that interface prefix.
pub open spec fn on_output(ws: Workspace, output: Seq<char>) -> bool {
    ws.output is Some && (ws.output->0@ == output || display_prefix(ws.output->0@) == Some(output))
}

/// Position of the first workspace at or after `i` designated by `name`, on `output` when given.
pub open spec fn first_ws_from(workspaces: Seq<Workspace>, name: Seq<char>, output: Option<Seq<char>>, i: int) -> Option<int>
    decreases workspaces.len() - i,
{
    if i < 0 || i >= workspaces.len() {
        None
    } else if designates(workspaces[i], name) && match output {
        Some(o) => on_output(workspaces[i], o),
        None => true,
    } {
        Some(i)
    } else {
        first_ws_from(workspaces, name, output, i + 1)
    }
}

/// The workspace a lock target (`name` or `name@output`) designates: on the given output;
/// without an output, on the focused output first, then on any output.
pub open spec fn lock_workspace(workspaces: Seq<Workspace>, target: Seq<char>, focused_output: Option<Seq<char>>) -> Option<int> {
    let (name, want) = split_at_sign(target);
    match want {
        Some(o) => first_ws_from(workspaces, name, Some(o), 0),
        None => match focused_output {
            Some(f) => match first_ws_from(workspaces, name, Some(f), 0) {
                Some(i) => Some(i),
                None => first_ws_from(workspaces, name, None, 0),
            },
            None => first_ws_from(workspaces, name, None, 0),
        },
    }
}

/// The workspace is called `name` (by name or by index) and, when `output` is given, sits on
/// that output: its connector is `output` or has `output` as its interface prefix.
pub open spec fn fits(ws: Workspace, name: Seq<char>, output: Option<Seq<char>>) -> bool {
    &&& (ws.name is Some && ws.name->0@ == name) || decimal(ws.idx as nat) == name
    &&& match output {
        Some(o) => ws.output is Some && (ws.output->0@ == o || display_prefix(ws.output->0@) == Some(o)),
        None => true,
    }
}

proof fn lemma_first_ws_is_first_fit(workspaces: Seq<Workspace>, name: Seq<char>, output: Option<Seq<char>>, i: int)
    requires
        0 <= i,
    ensures
        match first_ws_from(workspaces, name, output, i) {
            Some(j) => i <= j < workspaces.len() && fits(workspaces[j], name, output) && forall|k: int|
                i <= k < j ==> !#[trigger] fits(workspaces[k], name, output),
            None => forall|k: int| i <= k < workspaces.len() ==> !#[trigger] fits(workspaces[k], name, output),
        },
    decreases workspaces.len() - i,
{
    if i < workspaces.len() {
        lemma_first_ws_is_first_fit(workspaces, name, output, i + 1);
    }
}

/// The workspace a lock target designates. With an `@output` part it is the first workspace
/// listed with that name (or index) on that output (the connector itself or one with that
/// interface prefix), and there is none when no such workspace exists: a workspace with the
/// name on another output never counts. Without an output part it is the first one with the
/// name on the focused output, else the first one with the name anywhere.
pub proof fn law_lock_workspace_honours_output(workspaces: Seq<Workspace>, target: Seq<char>, focused_output: Option<Seq<char>>)
    ensures
        ({
            let (name, want) = split_at_sign(target);
            let r = lock_workspace(workspaces, target, focused_output);
            &&& r matches Some(i) ==> 0 <= i < workspaces.len() && fits(workspaces[i], name, None)
            &&& want is Some ==> match r {
                Some(i) => fits(workspaces[i], name, want) && forall|k: int|
                    0 <= k < i ==> !#[trigger] fits(workspaces[k], name, want),
                None => forall|k: int| 0 <= k < workspaces.len() ==> !#[trigger] fits(workspaces[k], name, want),
            }
            &&& want is None && r is None ==> forall|k: int| 0 <= k < workspaces.len() ==> !#[trigger] fits(workspaces[k], name, None)
            &&& (want is None && focused_output is Some && exists|k: int| 0 <= k < workspaces.len()
                && #[trigger] fits(workspaces[k], name, focused_output)) ==> (r matches Some(i) && fits(workspaces[i], name, focused_output)
                && forall|k: int| 0 <= k < i ==> !#[trigger] fits(workspaces[k], name, focused_output))
        }),
{
    let (name, want) = split_at_sign(target);
    lemma_first_ws_is_first_fit(workspaces, name, want, 0);
    lemma_first_ws_is_first_fit(workspaces, name, focused_output, 0);
    lemma_first_ws_is_first_fit(workspaces, name, None, 0);
    let r = lock_workspace(workspaces, target, focused_output);
    if let Some(i) = r {
        if let Some(o) = want {
            assert(fits(workspaces[i], name, want));
        } else if let Some(f) = focused_output {
            if let Some(j) = first_ws_from(workspaces, name, Some(f), 0) {
                assert(fits(workspaces[j], name, Some(f)));
            }
        }
    }
}

/// What to do for a newly opened window that a rule matches.
pub struct OpenedAction {
    pub rule_index: usize,
    /// Target workspace without lock suffix, and whether the window is locked there.
    pub move_to: Option<(String, bool)>,
    pub focus_command: Option<String>,
    pub focus_once: bool,
}

/// Window rule plugin state.
pub struct WindowRulePlugin {
    pub config: WindowRulePluginConfig,
    /// Last window a focus command ran for.
    pub last_focused_window: Option<u64>,
    /// Rules whose once-only focus command has run.
    pub executed_rules: HashSet<usize>,
    /// Last window whose focus was handled.
    pub last_handled_window: Option<u64>,
    /// Windows locked to a workspace target.
    pub locked_windows: HashMap<u64, String>,
}

fn ws_on_output(ws: &Workspace, output: &str) -> (r: bool)
    ensures
        r == on_output(*ws, output@),
{
    match &ws.output {
        None => false,
        Some(o) => {
            if str_eq(o.as_str(), output) {
                true
            } else {
                match extract_display_prefix(o.as_str()) {
                    Some(p) => str_eq(p, output),
                    None => false,
                }
            }
        },
    }
}

fn ws_designated(ws: &Workspace, name: &str) -> (r: bool)
    ensures
        r == designates(*ws, name@),
{
    let by_name = match &ws.name {
        Some(n) => str_eq(n.as_str(), name),
        None => false,
    };
    by_name || str_is_decimal_of(name, ws.idx as u64)
}

fn first_ws(workspaces: &[Workspace], name: &str, output: Option<&str>) -> (r: Option<usize>)
    ensures
        match first_ws_from(workspaces@, name@, opt_str_view(output), 0) {
            Some(i) => (r matches Some(k) && k as int == i) && 0 <= i < workspaces@.len(),
            None => r is None,
        },
{
    let n = workspaces.len();
    proof {
        lemma_first_ws_range_all(workspaces@, name@, opt_str_view(output));
    }
    let mut i: usize = 0;
    while i < n
        invariant
            n == workspaces@.len(),
            0 <= i <= n,
            first_ws_from(workspaces@, name@, opt_str_view(output), 0) == first_ws_from(workspaces@, name@, opt_str_view(output), i as int),
            forall|k: int| #![trigger first_ws_from(workspaces@, name@, opt_str_view(output), k)]
                0 <= k <= n ==> (first_ws_from(workspaces@, name@, opt_str_view(output), k) matches Some(j) ==> k <= j < n),
        decreases n - i,
    {
        let ws = &workspaces[i];
        let fits = ws_designated(ws, name) && match output {
            Some(o) => ws_on_output(ws, o),
            None => true,
        };
        if fits {
            return Some(i);
        }
        i = i + 1;
    }
    None
}

/// The workspace (by position in the list) a lock target designates.
pub fn find_lock_workspace(workspaces: &[Workspace], target: &str, focused_output: Option<&str>) -> (r: Option<usize>)
    ensures
        match lock_workspace(workspaces@, target@, opt_str_view(focused_output)) {
            Some(i) => (r matches Some(k) && k as int == i) && 0 <= i < workspaces@.len(),
            None => r is None,
        },
        r matches Some(k) ==> fits(workspaces@[k as int], split_at_sign(target@).0, split_at_sign(target@).1),
        split_at_sign(target@).1 is Some && r is None ==> forall|k: int|
            0 <= k < workspaces@.len() ==> !#[trigger] fits(workspaces@[k], split_at_sign(target@).0, split_at_sign(target@).1),
{
    proof {
        law_lock_workspace_honours_output(workspaces@, target@, opt_str_view(focused_output));
        lemma_first_ws_range_all(workspaces@, split_at_sign(target@).0, opt_str_view(focused_output));
        match split_at_sign(target@).1 {
            Some(o) => lemma_first_ws_range_all(workspaces@, split_at_sign(target@).0, Some(o)),
            None => {},
        }
    }
    let (name, want) = split_once_at(target);
    match &want {
        Some(o) => first_ws(workspaces, name.as_str(), Some(o.as_str())),
        None => match focused_output {
            Some(f) => match first_ws(workspaces, name.as_str(), Some(f)) {
                Some(i) => Some(i),
                None => first_ws(workspaces, name.as_str(), None),
            },
            None => first_ws(workspaces, name.as_str(), None),
        },
    }
}

proof fn lemma_first_ws_range(workspaces: Seq<Workspace>, name: Seq<char>, output: Option<Seq<char>>, i: int)
    requires
        0 <= i,
    ensures
        first_ws_from(workspaces, name, output, i) matches Some(j) ==> i <= j < workspaces.len(),
    decreases workspaces.len() - i,
{
    if i < workspaces.len() {
        lemma_first_ws_range(workspaces, name, output, i + 1);
    }
}

proof fn lemma_first_ws_range_all(workspaces: Seq<Workspace>, name: Seq<char>, output: Option<Seq<char>>)
    ensures
        forall|k: int| #![trigger first_ws_from(workspaces, name, output, k)]
            0 <= k ==> (first_ws_from(workspaces, name, output, k) matches Some(j) ==> k <= j < workspaces.len()),
        first_ws_from(workspaces, name, None, 0) matches Some(j) ==> 0 <= j < workspaces.len(),
{
    assert forall|k: int| #![trigger first_ws_from(workspaces, name, output, k)]
        0 <= k implies (first_ws_from(workspaces, name, output, k) matches Some(j) ==> k <= j < workspaces.len()) by {
        lemma_first_ws_range(workspaces, name, output, k);
    }
    lemma_first_ws_range(workspaces, name, None, 0);
}

/// Split a target workspace into the workspace without `!` and whether it locks.
pub fn parse_lock_target(s: &str) -> (r: (String, bool))
    ensures
        (r.0@, r.1) == lock_target(s@),
{
    let n = s.unicode_len();
    if n > 0 && s.get_char(n - 1) == '!' {
        (String::from_str(s.substring_char(0, n - 1)), true)
    } else {
        proof {
            assert(s@.subrange(0, n as int) =~= s@);
        }
        (String::from_str(s.substring_char(0, n)), false)
    }
}

impl WindowRulePlugin {
    /// Rules whose once-only focus command has run.
    pub open spec fn executed(&self) -> Set<usize> {
        self.executed_rules@
    }

    /// Windows locked to a workspace target.
    pub open spec fn locks(&self) -> Map<u64, String> {
        self.locked_windows@
    }

    pub fn new(config: WindowRulePluginConfig) -> (r: Self)
        ensures
            r.config == config,
            r.executed() == Set::<usize>::empty(),
            r.locks() == Map::<u64, String>::empty(),
            r.last_focused_window is None,
            r.last_handled_window is None,
    {
        WindowRulePlugin {
            config,
            last_focused_window: None,
            executed_rules: HashSet::new(),
            last_handled_window: None,
            locked_windows: HashMap::new(),
        }
    }

    /// New rules; rule positions may have changed, so no once-only command counts as run.
    pub fn update_config(&mut self, config: WindowRulePluginConfig)
        ensures
            final(self).config == config,
            final(self).executed() == Set::<usize>::empty(),
            final(self).locks() == old(self).locks(),
            final(self).last_focused_window == old(self).last_focused_window,
            final(self).last_handled_window == old(self).last_handled_window,
    {
        self.config = config;
        self.executed_rules.clear();
    }

    pub fn is_interested_in_event(&self, event: &PiriEvent) -> (r: bool)
        ensures
            r == (event is WindowOpened || event is WindowChanged || event is WindowClosed
                || (event matches PiriEvent::WindowFocusChanged { id } && id is Some)),
    {
        match event {
            PiriEvent::WindowOpened { .. } => true,
            PiriEvent::WindowChanged { .. } => true,
            PiriEvent::WindowClosed { .. } => true,
            PiriEvent::WindowFocusChanged { id: Some(_) } => true,
            _ => false,
        }
    }

    /// The first rule in scope that matches a window.
    pub fn find_rule(&self, scope: RuleScope, app_id: Option<&str>, title: Option<&str>) -> (r: Result<Option<usize>, PatternError>)
        ensures
            match first_rule_from(self.config.rules@, scope, opt_str_view(app_id), opt_str_view(title), 0) {
                Ok(Some(i)) => (r matches Ok(Some(k)) && k as int == i) && 0 <= i < self.config.rules@.len(),
                Ok(None) => r matches Ok(None),
                Err(p) => r matches Err(e) && e.pattern@ == p,
            },
    {
        let n = self.config.rules.len();
        let mut i: usize = 0;
        while i < n
            invariant
                n == self.config.rules@.len(),
                0 <= i <= n,
                first_rule_from(self.config.rules@, scope, opt_str_view(app_id), opt_str_view(title), 0)
                    == first_rule_from(self.config.rules@, scope, opt_str_view(app_id), opt_str_view(title), i as int),
            decreases n - i,
        {
            proof {
                lemma_first_rule_range(self.config.rules@, scope, opt_str_view(app_id), opt_str_view(title), i as int);
            }
            let rule = &self.config.rules[i];
            let in_scope = match scope {
                RuleScope::All => true,
                RuleScope::WithFocusCommand => rule.focus_command.is_some(),
            };
            if in_scope {
                let matcher = WindowMatcher::new(opt_vec_ref(&rule.app_id), opt_vec_ref(&rule.title));
                match matcher.matches(app_id, title) {
                    Err(e) => {
                        return Err(e);
                    },
                    Ok(true) => {
                        return Ok(Some(i));
                    },
                    Ok(false) => {},
                }
            }
            i = i + 1;
        }
        Ok(None)
    }

    /// What to do for a newly opened window: the first matching rule's target
    /// (with its lock flag) and focus command.
    pub fn opened_action(&self, app_id: Option<&str>, title: Option<&str>) -> (r: Result<Option<OpenedAction>, PatternError>)
        ensures
            match first_rule_from(self.config.rules@, RuleScope::All, opt_str_view(app_id), opt_str_view(title), 0) {
                Ok(Some(i)) => r matches Ok(Some(a)) && {
                    let rule = self.config.rules@[i];
                    &&& a.rule_index as int == i
                    &&& a.focus_once == rule.focus_command_once
                    &&& opt_str_view_owned(a.focus_command) == opt_str_view_owned(rule.focus_command)
                    &&& match rule.open_on_workspace {
                        Some(w) => a.move_to matches Some(m) && (m.0@, m.1) == lock_target(w@),
                        None => a.move_to is None,
                    }
                },
                Ok(None) => r matches Ok(None),
                Err(p) => r matches Err(e) && e.pattern@ == p,
            },
    {
        match self.find_rule(RuleScope::All, app_id, title) {
            Err(e) => Err(e),
            Ok(None) => Ok(None),
            Ok(Some(i)) => {
                let rule = &self.config.rules[i];
                let move_to = match &rule.open_on_workspace {
                    Some(w) => Some(parse_lock_target(w.as_str())),
                    None => None,
                };
                let focus_command = match &rule.focus_command {
                    Some(c) => Some(c.clone()),
                    None => None,
                };
                Ok(Some(OpenedAction { rule_index: i, move_to, focus_command, focus_once: rule.focus_command_once }))
            },
        }
    }

    /// Whether a focus command may run: not for a once-only rule that already ran, and only
    /// when the throttle lets it through.
    pub fn focus_rule_allowed(&self, rule_index: usize, focus_once: bool, throttle_ok: bool) -> (r: bool)
        ensures
            r == (!(focus_once && self.executed().contains(rule_index)) && throttle_ok),
    {
        if focus_once && self.executed_rules.contains(&rule_index) {
            return false;
        }
        throttle_ok
    }

    /// Record that a focus command ran for a window.
    pub fn record_focus_run(&mut self, window_id: u64, rule_index: usize, focus_once: bool)
        ensures
            final(self).executed() == (if focus_once { old(self).executed().insert(rule_index) } else { old(self).executed() }),
            final(self).last_focused_window == Some(window_id),
            final(self).locks() == old(self).locks(),
            final(self).config == old(self).config,
            final(self).last_handled_window == old(self).last_handled_window,
    {
        if focus_once {
            self.executed_rules.insert(rule_index);
        }
        self.last_focused_window = Some(window_id);
    }

    /// Record that a focus change is being handled.
    pub fn record_handled(&mut self, window_id: u64)
        ensures
            final(self).last_handled_window == Some(window_id),
            final(self).executed() == old(self).executed(),
            final(self).locks() == old(self).locks(),
            final(self).config == old(self).config,
            final(self).last_focused_window == old(self).last_focused_window,
    {
        self.last_handled_window = Some(window_id);
    }

    /// Lock a window to a workspace target.
    pub fn lock_window(&mut self, window_id: u64, target: String)
        ensures
            final(self).locks() == old(self).locks().insert(window_id, target),
            final(self).executed() == old(self).executed(),
            final(self).config == old(self).config,
            final(self).last_focused_window == old(self).last_focused_window,
            final(self).last_handled_window == old(self).last_handled_window,
    {
        self.locked_windows.insert(window_id, target);
    }

    /// Forget the lock of a closed window.
    pub fn on_window_closed(&mut self, window_id: u64)
        ensures
            final(self).locks() == old(self).locks().remove(window_id),
            final(self).executed() == old(self).executed(),
            final(self).config == old(self).config,
            final(self).last_focused_window == old(self).last_focused_window,
            final(self).last_handled_window == old(self).last_handled_window,
    {
        self.locked_windows.remove(&window_id);
    }

    /// The workspace target a window is locked to.
    pub fn locked_target(&self, window_id: u64) -> (r: Option<&String>)
        ensures
            self.locks().contains_key(window_id) ==> (r matches Some(t) && *t == self.locks()[window_id]),
            !self.locks().contains_key(window_id) ==> r is None,
    {
        self.locked_windows.get(&window_id)
    }

    /// For a changed window: the workspace target to move it back to, when it is locked and
    /// not on the workspace its target designates (`workspaces` as niri lists them).
    pub fn lock_violation(&self, window_id: u64, window_workspace: Option<u64>, workspaces: &[Workspace], focused_output: Option<&str>) -> (r: Option<String>)
        ensures
            match self.locks().get(window_id) {
                None => r is None,
                Some(t) => match lock_workspace(workspaces@, t@, opt_str_view(focused_output)) {
                    None => r is None,
                    Some(i) => if window_workspace == Some(workspaces@[i].id) {
                        r is None
                    } else {
                        r matches Some(s) && s@ == t@
                    },
                },
            },
            r matches Some(s) ==> self.locks().contains_key(window_id) && s@ == self.locks()[window_id]@,
            (self.locks().contains_key(window_id) && r is None && split_at_sign(self.locks()[window_id]@).1 is Some) ==> {
                let (name, want) = split_at_sign(self.locks()[window_id]@);
                ||| forall|k: int| 0 <= k < workspaces@.len() ==> !#[trigger] fits(workspaces@[k], name, want)
                ||| exists|k: int| 0 <= k < workspaces@.len() && #[trigger] fits(workspaces@[k], name, want)
                    && window_workspace == Some(workspaces@[k].id)
            },
    {
        match self.locked_windows.get(&window_id) {
            None => None,
            Some(t) => match find_lock_workspace(workspaces, t.as_str(), focused_output) {
                None => None,
                Some(i) => {
                    if window_workspace == Some(workspaces[i].id) {
                        None
                    } else {
                        Some(t.clone())
                    }
                },
            },
        }
    }
}

pub open spec fn opt_str_view_owned(o: Option<String>) -> Option<Seq<char>> {
    match o {
        Some(s) => Some(s@),
        None => None,
    }
}

proof fn lemma_first_rule_range(
    rules: Seq<WindowRuleConfig>,
    scope: RuleScope,
    app_id: Option<Seq<char>>,
    title: Option<Seq<char>>,
    i: int,
)
    requires
        0 <= i,
    ensures
        first_rule_from(rules, scope, app_id, title, i) matches Ok(Some(j)) ==> i <= j < rules.len(),
    decreases rules.len() - i,
{
    if i < rules.len() {
        lemma_first_rule_range(rules, scope, app_id, title, i + 1);
    }
}

} // verus!
