//! Single-instance applications: which window stands for each configured singleton,
//! and how the window is found when there is none.
use vstd::prelude::*;
use vstd::string::*;
use crate::config::{skip_ws_exec, word_end, word_end_exec, Config, SingletonConfig};
use crate::named::{distinct, find, has_name, lemma_to_map_at, lemma_to_map_prefix, lemma_to_map_push, put, to_map};
use crate::scratchpads::exists_in;
use crate::scratchpads::window_exists;
use crate::text::{skip_ws_from};
use crate::window::Window;

verus! {

/// The first whitespace-separated word of `s`, or `s` itself when it has none.
pub open spec fn first_word(s: Seq<char>) -> Seq<char> {
    let a = skip_ws_from(s, 0);
    if a < s.len() {
        s.subrange(a, word_end(s, a))
    } else {
        s
    }
}

/// Index just past the last `/` before position `j` (0 when there is none).
pub open spec fn after_last_slash(s: Seq<char>, j: int) -> int
    decreases j,
{
    if 0 < j <= s.len() {
        if s[j - 1] == '/' {
            j
        } else {
            after_last_slash(s, j - 1)
        }
    } else {
        0
    }
}

/// The application id a launch command stands for: the program's file name.
pub open spec fn app_id_of_command(command: Seq<char>) -> Seq<char> {
    let w = first_word(command);
    w.subrange(after_last_slash(w, w.len() as int), w.len() as int)
}

proof fn lemma_after_last_slash_bounds(s: Seq<char>, j: int)
    requires
        0 <= j <= s.len(),
    ensures
        0 <= after_last_slash(s, j) <= j,
    decreases j,
{
    if j > 0 && s[j - 1] != '/' {
        lemma_after_last_slash_bounds(s, j - 1);
    }
}

proof fn lemma_word_end_bounds(s: Seq<char>, i: int)
    requires
        0 <= i <= s.len(),
    ensures
        i <= word_end(s, i) <= s.len(),
    decreases s.len() - i,
{
    if i < s.len() && !crate::text::is_ws(s[i]) {
        lemma_word_end_bounds(s, i + 1);
    }
}

proof fn lemma_after_last_slash_props(s: Seq<char>, j: int)
    requires
        0 <= j <= s.len(),
    ensures
        0 <= after_last_slash(s, j) <= j,
        after_last_slash(s, j) == 0 || s[after_last_slash(s, j) - 1] == '/',
        forall|k: int| after_last_slash(s, j) <= k < j ==> #[trigger] s[k] != '/',
    decreases j,
{
    if j > 0 && s[j - 1] != '/' {
        lemma_after_last_slash_props(s, j - 1);
    }
}

proof fn lemma_word_end_props(s: Seq<char>, i: int)
    requires
        0 <= i <= s.len(),
    ensures
        i <= word_end(s, i) <= s.len(),
        word_end(s, i) < s.len() ==> crate::text::is_ws(s[word_end(s, i)]),
        forall|k: int| i <= k < word_end(s, i) ==> !crate::text::is_ws(#[trigger] s[k]),
    decreases s.len() - i,
{
    if i < s.len() && !crate::text::is_ws(s[i]) {
        lemma_word_end_props(s, i + 1);
    }
}

/// The application id of a launch command that is not blank is the program's file name:
/// it holds no `/` and no whitespace, it stands in the command right after a `/`, a space
/// or the start, it runs to the end of its word, and only whitespace or one word's first
/// characters come before it (so it is taken from the first word, never a later one).
pub proof fn law_app_id_is_program_name(command: Seq<char>)
    requires
        exists|k: int| 0 <= k < command.len() && !crate::text::is_ws(#[trigger] command[k]),
    ensures
        ({
            let r = app_id_of_command(command);
            &&& forall|k: int| 0 <= k < r.len() ==> #[trigger] r[k] != '/' && !crate::text::is_ws(r[k])
            &&& exists|i: int| {
                &&& 0 <= i && i + r.len() <= command.len()
                &&& #[trigger] command.subrange(i, i + r.len()) == r
                &&& (i == 0 || command[i - 1] == '/' || crate::text::is_ws(command[i - 1]))
                &&& (i + r.len() == command.len() || crate::text::is_ws(command[i + r.len()]))
                &&& forall|k1: int, k2: int| 0 <= k1 < k2 < i && !crate::text::is_ws(#[trigger] command[k1])
                    ==> !crate::text::is_ws(#[trigger] command[k2])
            }
        }),
{
    let s = command;
    crate::text::lemma_skip_from_bounds(s, 0);
    let a = skip_ws_from(s, 0);
    if a >= s.len() {
        let k = choose|k: int| 0 <= k < s.len() && !crate::text::is_ws(#[trigger] s[k]);
        assert(crate::text::is_ws(s[k]));
    }
    lemma_word_end_props(s, a);
    let e = word_end(s, a);
    let w = s.subrange(a, e);
    assert(first_word(s) == w);
    lemma_after_last_slash_props(w, w.len() as int);
    let p = after_last_slash(w, w.len() as int);
    let r = w.subrange(p, w.len() as int);
    assert(app_id_of_command(s) == r);
    let i = a + p;
    assert(s.subrange(i, i + r.len()) =~= r);
    assert forall|k: int| 0 <= k < r.len() implies #[trigger] r[k] != '/' && !crate::text::is_ws(r[k]) by {
        assert(r[k] == w[p + k]);
        assert(w[p + k] == s[a + p + k]);
    }
    if p > 0 {
        assert(s[i - 1] == w[p - 1]);
    }
    assert forall|k1: int, k2: int| 0 <= k1 < k2 < i && !crate::text::is_ws(#[trigger] s[k1]) implies !crate::text::is_ws(
        #[trigger] s[k2]) by {
        if k1 < a {
            assert(crate::text::is_ws(s[k1]));
        }
    }
    assert(i + r.len() == e);
}

/// The application id taken from a launch command: the file name of the first word
/// (`/usr/bin/foot --server` gives `foot`).
pub fn extract_app_id_from_command(command: &str) -> (r: String)
    ensures
        r@ == app_id_of_command(command@),
{
    let n = command.unicode_len();
    let a = skip_ws_exec(command, n, 0);
    let word: &str = if a < n {
        let e = word_end_exec(command, n, a);
        command.substring_char(a, e)
    } else {
        command
    };
    proof {
        if a < n {
            lemma_word_end_bounds(command@, a as int);
        }
    }
    assert(word@ == first_word(command@));
    let m = word.unicode_len();
    let mut b: usize = m;
    while b > 0 && word.get_char(b - 1) != '/'
        invariant
            m == word@.len(),
            0 <= b <= m,
            after_last_slash(word@, m as int) == after_last_slash(word@, b as int),
        decreases b,
    {
        b = b - 1;
    }
    proof {
        lemma_after_last_slash_bounds(word@, m as int);
    }
    String::from_str(word.substring_char(b, m))
}

/// The pattern a singleton's window is found by: its app_id, or the one taken from its command.
pub open spec fn match_pattern(c: SingletonConfig) -> Seq<char> {
    match c.app_id {
        Some(a) => a@,
        None => app_id_of_command(c.command@),
    }
}

/// The pattern a singleton's window is found by.
pub fn get_window_match_pattern(config: &SingletonConfig) -> (r: String)
    ensures
        r@ == match_pattern(*config),
{
    match &config.app_id {
        Some(a) => a.clone(),
        None => extract_app_id_from_command(config.command.as_str()),
    }
}

/// Singleton plugin configuration.
pub struct SingletonPluginConfig {
    pub singletons: Vec<(String, SingletonConfig)>,
}

impl SingletonPluginConfig {
    /// Present only when some singleton is configured.
    pub fn from_config(config: Config) -> (r: Option<Self>)
        ensures
            config.singleton@.len() == 0 ==> r is None,
            config.singleton@.len() > 0 ==> (r matches Some(c) && c.singletons@ == config.singleton@),
    {
        if config.singleton.len() == 0 {
            None
        } else {
            Some(SingletonPluginConfig { singletons: config.singleton })
        }
    }
}

/// One singleton's state.
pub struct SingletonState {
    pub window_id: Option<u64>,
    pub config: SingletonConfig,
}

/// What to do before focusing a singleton.
pub enum SingletonCheck {
    /// Its window is alive.
    Known(u64),
    /// Find a window by `pattern`, or launch `command` and wait for one; a newly created
    /// window then gets `on_created_command`.
    FindOrLaunch { pattern: String, command: String, on_created_command: Option<String> },
}

/// Why a singleton toggle fails.
#[derive(Debug, PartialEq, Eq)]
pub enum SingletonError {
    /// No singleton of that name.
    NotFound,
}

/// Singleton plugin state.
pub struct SingletonPlugin {
    pub states: Vec<(String, SingletonState)>,
    pub config: SingletonPluginConfig,
}

/// The states after a configuration change: configured names keep their window and take the
/// new configuration, new names start without a window, the others go.
pub open spec fn singleton_merged(old: Map<Seq<char>, SingletonState>, cfg: Map<Seq<char>, SingletonConfig>) -> Map<Seq<char>, SingletonState> {
    Map::new(
        |n: Seq<char>| cfg.contains_key(n),
        |n: Seq<char>| SingletonState {
            window_id: if old.contains_key(n) { old[n].window_id } else { None },
            config: cfg[n],
        },
    )
}

/// Taking a new configuration keeps the window of every singleton still configured, and
/// drops the singletons no longer configured.
pub proof fn law_reload_keeps_windows(old: Map<Seq<char>, SingletonState>, cfg: Map<Seq<char>, SingletonConfig>, n: Seq<char>)
    ensures
        cfg.contains_key(n) && old.contains_key(n) ==> singleton_merged(old, cfg).contains_key(n)
            && singleton_merged(old, cfg)[n].window_id == old[n].window_id
            && singleton_merged(old, cfg)[n].config == cfg[n],
        !cfg.contains_key(n) ==> !singleton_merged(old, cfg).contains_key(n),
{
}

impl SingletonPlugin {
    /// Names are distinct.
    pub open spec fn wf(&self) -> bool {
        distinct(self.states@)
    }

    /// The singletons by name.
    pub open spec fn view_states(&self) -> Map<Seq<char>, SingletonState> {
        to_map(self.states@)
    }

    /// Builds the states for `cfg`, keeping the windows recorded in `old`.
    fn merge(old: &Vec<(String, SingletonState)>, cfg: &Vec<(String, SingletonConfig)>) -> (r: Vec<(String, SingletonState)>)
        requires
            distinct(old@),
            distinct(cfg@),
        ensures
            distinct(r@),
            to_map(r@) == singleton_merged(to_map(old@), to_map(cfg@)),
    {
        let mut out: Vec<(String, SingletonState)> = Vec::new();
        let n = cfg.len();
        let mut i: usize = 0;
        proof {
            assert(to_map(cfg@.subrange(0, 0)) =~= Map::<Seq<char>, SingletonConfig>::empty());
            assert(to_map(out@) =~= singleton_merged(to_map(old@), to_map(cfg@.subrange(0, 0))));
        }
        while i < n
            invariant
                n == cfg@.len(),
                distinct(old@),
                distinct(cfg@),
                distinct(out@),
                0 <= i <= n,
                to_map(out@) == singleton_merged(to_map(old@), to_map(cfg@.subrange(0, i as int))),
            decreases n - i,
        {
            let ghost prefix = to_map(cfg@.subrange(0, i as int));
            proof {
                lemma_to_map_prefix(cfg@, i as int);
                if prefix.contains_key(cfg@[i as int].0@) {
                    let j = choose|j: int| 0 <= j < i && #[trigger] cfg@.subrange(0, i as int)[j].0@ == cfg@[i as int].0@;
                    assert(cfg@.subrange(0, i as int)[j] == cfg@[j]);
                    assert(cfg@[j].0@ != cfg@[i as int].0@);
                }
                assert(!to_map(out@).contains_key(cfg@[i as int].0@));
                assert(!has_name(out@, cfg@[i as int].0@));
            }
            let window_id = match find(old, cfg[i].0.as_str()) {
                Some(j) => {
                    proof {
                        lemma_to_map_at(old@, j as int);
                    }
                    old[j].1.window_id
                },
                None => None,
            };
            let st = SingletonState { window_id, config: cfg[i].1.clone() };
            let name = cfg[i].0.clone();
            proof {
                lemma_to_map_push(out@, name, st);
            }
            out.push((name, st));
            proof {
                let next = to_map(cfg@.subrange(0, i as int + 1));
                assert(next == prefix.insert(cfg@[i as int].0@, cfg@[i as int].1));
                assert(to_map(out@) =~= singleton_merged(to_map(old@), next));
            }
            i = i + 1;
        }
        proof {
            assert(cfg@.subrange(0, n as int) =~= cfg@);
        }
        out
    }

    /// A state without a window for every configured singleton.
    pub fn new(config: SingletonPluginConfig) -> (r: Self)
        requires
            distinct(config.singletons@),
        ensures
            r.wf(),
            r.view_states() == singleton_merged(Map::empty(), to_map(config.singletons@)),
            r.config == config,
    {
        let empty: Vec<(String, SingletonState)> = Vec::new();
        proof {
            assert(to_map(empty@) =~= Map::<Seq<char>, SingletonState>::empty());
        }
        let states = Self::merge(&empty, &config.singletons);
        SingletonPlugin { states, config }
    }

    /// Takes a new configuration: configured names keep their window and take the new
    /// configuration, new names start without a window, names no longer configured go.
    pub fn update_config(&mut self, config: SingletonPluginConfig)
        requires
            old(self).wf(),
            distinct(config.singletons@),
        ensures
            final(self).wf(),
            final(self).view_states() == singleton_merged(old(self).view_states(), to_map(config.singletons@)),
            final(self).config == config,
    {
        let states = Self::merge(&self.states, &config.singletons);
        self.states = states;
        self.config = config;
    }

    /// Checks the singleton's window against the live windows; a window that is gone is forgotten.
    pub fn check_window(&mut self, name: &str, windows: &[Window]) -> (r: Result<SingletonCheck, SingletonError>)
        requires
            old(self).wf(),
        ensures
            final(self).wf(),
            final(self).config == old(self).config,
            !old(self).view_states().contains_key(name@) ==> (r matches Err(SingletonError::NotFound))
                && final(self).view_states() == old(self).view_states(),
            old(self).view_states().contains_key(name@) ==> ({
                let st = old(self).view_states()[name@];
                if st.window_id is Some && exists_in(windows@, st.window_id->0) {
                    r == Ok::<SingletonCheck, SingletonError>(SingletonCheck::Known(st.window_id->0))
                        && final(self).view_states() == old(self).view_states()
                } else {
                    &&& r matches Ok(SingletonCheck::FindOrLaunch { pattern, command, on_created_command })
                        && pattern@ == match_pattern(st.config) && command@ == st.config.command@
                        && on_created_command == st.config.on_created_command
                    &&& final(self).view_states() == old(self).view_states().insert(name@,
                        SingletonState { window_id: None, ..st })
                }
            }),
    {
        let i = match find(&self.states, name) {
            Some(i) => i,
            None => return Err(SingletonError::NotFound),
        };
        proof {
            lemma_to_map_at(self.states@, i as int);
        }
        if let Some(w) = self.states[i].1.window_id {
            if window_exists(windows, w) {
                return Ok(SingletonCheck::Known(w));
            }
        }
        let config = self.states[i].1.config.clone();
        let pattern = get_window_match_pattern(&config);
        let command = config.command.clone();
        let on_created_command = config.on_created_command.clone();
        put(&mut self.states, String::from_str(name), SingletonState { window_id: None, config });
        Ok(SingletonCheck::FindOrLaunch { pattern, command, on_created_command })
    }

    /// Records the window found or launched for the singleton `name`.
    pub fn attach_window(&mut self, name: &str, window_id: u64)
        requires
            old(self).wf(),
            old(self).view_states().contains_key(name@),
        ensures
            final(self).wf(),
            final(self).config == old(self).config,
            final(self).view_states() == old(self).view_states().insert(name@,
                SingletonState { window_id: Some(window_id), ..old(self).view_states()[name@] }),
    {
        let i = find(&self.states, name).unwrap();
        proof {
            lemma_to_map_at(self.states@, i as int);
        }
        let config = self.states[i].1.config.clone();
        put(&mut self.states, String::from_str(name), SingletonState { window_id: Some(window_id), config });
    }
}

} // verus!
