//! Input method switching: the mode a focused window asks for, and whether
//! the input method has to be switched.
use vstd::prelude::*;
use vstd::string::*;
use crate::config::Config;
use crate::matching::{opt_str_view, opt_vec_ref, result_view, window_matches, PatternError, WindowMatcher};
use crate::text::ascii_lower;
use crate::window::PiriEvent;

verus! {

/// Fcitx5 input mode.
#[derive(Debug, Clone, Copy, PartialEq, Eq, Structural)]
pub enum Fcitx5InputMode {
    /// English mode (inactive).
    English,
    /// Chinese mode (active).
    Chinese,
}

/// A window rule: windows matching it get this input mode.
#[derive(Debug, Clone)]
pub struct Fcitx5WindowRule {
    pub app_id: Option<Vec<String>>,
    pub title: Option<Vec<String>>,
    /// "english"/"en" or "chinese"/"cn"/"zh", in any letter case.
    pub input_mode: String,
}

/// Fcitx5 plugin configuration.
#[derive(Debug, Clone)]
pub struct Fcitx5PluginConfig {
    pub rules: Vec<Fcitx5WindowRule>,
}

/// `s` with ASCII letters lowered.
pub open spec fn lowered(s: Seq<char>) -> Seq<char> {
    s.map_values(|c: char| ascii_lower(c))
}

/// The mode a rule names. Lowering non-ASCII characters (as `str::to_lowercase` does)
/// cannot produce these ASCII words, so ASCII lowering decides the same way.
pub open spec fn input_mode_named(s: Seq<char>) -> Option<Fcitx5InputMode> {
    let l = lowered(s);
    if l == "english"@ || l == "en"@ {
        Some(Fcitx5InputMode::English)
    } else if l == "chinese"@ || l == "cn"@ || l == "zh"@ {
        Some(Fcitx5InputMode::Chinese)
    } else {
        None
    }
}

/// `s` spells the lower-case word `w` in some letter case: same length, and each character
/// is the word's letter or that letter in upper case.
pub open spec fn spells(s: Seq<char>, w: Seq<char>) -> bool {
    &&& s.len() == w.len()
    &&& forall|k: int| 0 <= k < s.len() ==> (#[trigger] s[k] == w[k] || ('a' <= w[k] <= 'z' && s[k] as int == w[k] as int - 32))
}

pub open spec fn lower_word(w: Seq<char>) -> bool {
    forall|k: int| 0 <= k < w.len() ==> 'a' <= #[trigger] w[k] <= 'z'
}

proof fn lemma_spells_iff_lowered(s: Seq<char>, w: Seq<char>)
    requires
        lower_word(w),
    ensures
        spells(s, w) <==> lowered(s) == w,
{
    if spells(s, w) {
        assert forall|k: int| 0 <= k < s.len() implies #[trigger] lowered(s)[k] == w[k] by {
            let c = s[k];
            if c != w[k] {
                assert(65 <= c as int <= 90);
                assert((c as u8) as int == c as int);
            }
        }
        assert(lowered(s) =~= w);
    }
    if lowered(s) == w {
        assert forall|k: int| 0 <= k < s.len() implies (#[trigger] s[k] == w[k] || ('a' <= w[k] <= 'z' && s[k] as int == w[k]
            as int - 32)) by {
            let c = s[k];
            assert(lowered(s)[k] == ascii_lower(c));
            if 'A' <= c && c <= 'Z' {
                assert((c as u8) as int == c as int);
            }
        }
    }
}

/// A rule names English by "english" or "en" and Chinese by "chinese", "cn" or "zh", each in
/// any letter case, and names no mode by any other text.
pub proof fn law_mode_words(s: Seq<char>)
    ensures
        (spells(s, "english"@) || spells(s, "en"@)) <==> input_mode_named(s) == Some(Fcitx5InputMode::English),
        (spells(s, "chinese"@) || spells(s, "cn"@) || spells(s, "zh"@)) <==> input_mode_named(s) == Some(
            Fcitx5InputMode::Chinese,
        ),
{
    reveal_strlit("english");
    reveal_strlit("en");
    reveal_strlit("chinese");
    reveal_strlit("cn");
    reveal_strlit("zh");
    lemma_spells_iff_lowered(s, "english"@);
    lemma_spells_iff_lowered(s, "en"@);
    lemma_spells_iff_lowered(s, "chinese"@);
    lemma_spells_iff_lowered(s, "cn"@);
    lemma_spells_iff_lowered(s, "zh"@);
    assert("english"@[0] != "chinese"@[0]);
    assert("en"@[0] != "cn"@[0] && "en"@[0] != "zh"@[0]);
}

pub open spec fn opt_vecs(o: Option<Vec<String>>) -> Option<Seq<String>> {
    match o {
        Some(v) => Some(v@),
        None => None,
    }
}

/// The mode for a window from `rules[i..]`: the first matching rule that names a mode
/// (matching rules naming no mode are passed over); an invalid pattern is an error.
pub open spec fn rule_mode_from(
    rules: Seq<Fcitx5WindowRule>,
    app_id: Option<Seq<char>>,
    title: Option<Seq<char>>,
    i: int,
) -> Result<Option<Fcitx5InputMode>, Seq<char>>
    decreases rules.len() - i,
{
    if i < 0 || i >= rules.len() {
        Ok(None)
    } else {
        match window_matches(opt_vecs(rules[i].app_id), opt_vecs(rules[i].title), app_id, title) {
            Err(p) => Err(p),
            Ok(false) => rule_mode_from(rules, app_id, title, i + 1),
            Ok(true) => match input_mode_named(rules[i].input_mode@) {
                None => rule_mode_from(rules, app_id, title, i + 1),
                Some(m) => Ok(Some(m)),
            },
        }
    }
}

proof fn lemma_rule_mode_props(rules: Seq<Fcitx5WindowRule>, app_id: Option<Seq<char>>, title: Option<Seq<char>>, i: int)
    requires
        0 <= i,
    ensures
        rule_mode_from(rules, app_id, title, i) matches Ok(Some(m)) ==> exists|k: int| {
            &&& i <= k < rules.len()
            &&& window_matches(opt_vecs(rules[k].app_id), opt_vecs(rules[k].title), app_id, title) == Ok::<bool, Seq<char>>(true)
            &&& #[trigger] input_mode_named(rules[k].input_mode@) == Some(m)
            &&& forall|j: int| i <= j < k ==> #[trigger] window_matches(opt_vecs(rules[j].app_id), opt_vecs(rules[j].title), app_id, title)
                == Ok::<bool, Seq<char>>(false) || input_mode_named(rules[j].input_mode@) is None
        },
        rule_mode_from(rules, app_id, title, i) == Ok::<Option<Fcitx5InputMode>, Seq<char>>(None) ==> forall|j: int|
            i <= j < rules.len() ==> #[trigger] window_matches(opt_vecs(rules[j].app_id), opt_vecs(rules[j].title), app_id, title)
            == Ok::<bool, Seq<char>>(false) || input_mode_named(rules[j].input_mode@) is None,
    decreases rules.len() - i,
{
    if i < rules.len() {
        lemma_rule_mode_props(rules, app_id, title, i + 1);
        if let Ok(Some(m)) = rule_mode_from(rules, app_id, title, i) {
            if window_matches(opt_vecs(rules[i].app_id), opt_vecs(rules[i].title), app_id, title) == Ok::<bool, Seq<char>>(true)
                && input_mode_named(rules[i].input_mode@) == Some(m) {
                assert(input_mode_named(rules[i].input_mode@) == Some(m));
            } else {
                let k = choose|k: int| {
                    &&& i + 1 <= k < rules.len()
                    &&& window_matches(opt_vecs(rules[k].app_id), opt_vecs(rules[k].title), app_id, title) == Ok::<bool, Seq<char>>(true)
                    &&& #[trigger] input_mode_named(rules[k].input_mode@) == Some(m)
                    &&& forall|j: int| i + 1 <= j < k ==> #[trigger] window_matches(opt_vecs(rules[j].app_id), opt_vecs(rules[j].title), app_id, title)
                        == Ok::<bool, Seq<char>>(false) || input_mode_named(rules[j].input_mode@) is None
                };
                assert(input_mode_named(rules[k].input_mode@) == Some(m));
            }
        }
    }
}

/// The mode a focused window asks for comes from the first rule that matches it and names a
/// mode: rules before it do not match or name no mode (a rule with an unknown mode word is
/// passed over). No mode means no rule both matches and names one.
pub proof fn law_first_rule_with_mode(rules: Seq<Fcitx5WindowRule>, app_id: Option<Seq<char>>, title: Option<Seq<char>>)
    ensures
        rule_mode_from(rules, app_id, title, 0) matches Ok(Some(m)) ==> exists|k: int| {
            &&& 0 <= k < rules.len()
            &&& window_matches(opt_vecs(rules[k].app_id), opt_vecs(rules[k].title), app_id, title) == Ok::<bool, Seq<char>>(true)
            &&& #[trigger] input_mode_named(rules[k].input_mode@) == Some(m)
            &&& forall|j: int| 0 <= j < k ==> #[trigger] window_matches(opt_vecs(rules[j].app_id), opt_vecs(rules[j].title), app_id, title)
                == Ok::<bool, Seq<char>>(false) || input_mode_named(rules[j].input_mode@) is None
        },
        rule_mode_from(rules, app_id, title, 0) == Ok::<Option<Fcitx5InputMode>, Seq<char>>(None) ==> forall|j: int|
            0 <= j < rules.len() ==> #[trigger] window_matches(opt_vecs(rules[j].app_id), opt_vecs(rules[j].title), app_id, title)
            == Ok::<bool, Seq<char>>(false) || input_mode_named(rules[j].input_mode@) is None,
{
    lemma_rule_mode_props(rules, app_id, title, 0);
}

fn lower_eq(s: &str, word: &str) -> (r: bool)
    ensures
        r == (lowered(s@) == word@),
{
    let n = s.unicode_len();
    if n != word.unicode_len() {
        return false;
    }
    let mut i: usize = 0;
    while i < n
        invariant
            n == s@.len(),
            n == word@.len(),
            0 <= i <= n,
            forall|k: int| 0 <= k < i ==> ascii_lower(s@[k]) == word@[k],
        decreases n - i,
    {
        let c = s.get_char(i);
        let l = if 'A' <= c && c <= 'Z' {
            ((c as u8) + 32) as char
        } else {
            c
        };
        if l != word.get_char(i) {
            assert(lowered(s@)[i as int] != word@[i as int]);
            return false;
        }
        i = i + 1;
    }
    assert(lowered(s@) =~= word@);
    true
}

impl Fcitx5InputMode {
    /// Convert from a fcitx5-remote status code: 0 = closed and 1 = inactive are English,
    /// 2 = active is Chinese.
    pub fn from_status(status: i32) -> (r: Option<Self>)
        ensures
            r == (if status == 0 || status == 1 {
                Some(Fcitx5InputMode::English)
            } else if status == 2 {
                Some(Fcitx5InputMode::Chinese)
            } else {
                None
            }),
    {
        match status {
            0 | 1 => Some(Fcitx5InputMode::English),
            2 => Some(Fcitx5InputMode::Chinese),
            _ => None,
        }
    }

    /// The mode a rule names, if it names one.
    pub fn parse(s: &str) -> (r: Option<Self>)
        ensures
            r == input_mode_named(s@),
            (spells(s@, "english"@) || spells(s@, "en"@)) <==> r == Some(Fcitx5InputMode::English),
            (spells(s@, "chinese"@) || spells(s@, "cn"@) || spells(s@, "zh"@)) <==> r == Some(Fcitx5InputMode::Chinese),
    {
        proof {
            law_mode_words(s@);
        }
        if lower_eq(s, "english") || lower_eq(s, "en") {
            Some(Fcitx5InputMode::English)
        } else if lower_eq(s, "chinese") || lower_eq(s, "cn") || lower_eq(s, "zh") {
            Some(Fcitx5InputMode::Chinese)
        } else {
            None
        }
    }

    /// The fcitx5-remote flag that selects the mode: `-c` closes (English), `-o` opens (Chinese).
    pub fn remote_flag(&self) -> (r: &'static str)
        ensures
            r@ == (match self {
                Fcitx5InputMode::English => "-c"@,
                Fcitx5InputMode::Chinese => "-o"@,
            }),
    {
        match self {
            Fcitx5InputMode::English => "-c",
            Fcitx5InputMode::Chinese => "-o",
        }
    }
}

impl Fcitx5PluginConfig {
    pub fn default() -> (r: Self)
        ensures
            r.rules@.len() == 0,
    {
        Fcitx5PluginConfig { rules: Vec::new() }
    }

    /// The configured rules; no plugin without rules.
    pub fn from_config(config: Config) -> (r: Option<Self>)
        ensures
            config.fcitx5@.len() == 0 ==> r is None,
            config.fcitx5@.len() > 0 ==> (r matches Some(c) && c.rules@ == config.fcitx5@),
    {
        if config.fcitx5.len() == 0 {
            None
        } else {
            Some(Fcitx5PluginConfig { rules: config.fcitx5 })
        }
    }
}

/// Fcitx5 plugin state: switches the input mode by the focused window.
pub struct Fcitx5Plugin {
    pub config: Fcitx5PluginConfig,
    /// Last window for which the input mode was switched.
    pub last_focused_window: Option<u64>,
    /// Last window whose focus was handled.
    pub last_handled_window: Option<u64>,
}

impl Fcitx5Plugin {
    pub fn new(config: Fcitx5PluginConfig) -> (r: Self)
        ensures
            r.config == config,
            r.last_focused_window is None,
            r.last_handled_window is None,
    {
        Fcitx5Plugin { config, last_focused_window: None, last_handled_window: None }
    }

    pub fn update_config(&mut self, config: Fcitx5PluginConfig)
        ensures
            final(self).config == config,
            final(self).last_focused_window == old(self).last_focused_window,
            final(self).last_handled_window == old(self).last_handled_window,
    {
        self.config = config;
    }

    pub fn is_interested_in_event(&self, event: &PiriEvent) -> (r: bool)
        ensures
            r == event is WindowFocusChanged,
    {
        match event {
            PiriEvent::WindowFocusChanged { .. } => true,
            _ => false,
        }
    }

    /// The window to handle for an event: a focus change onto a window.
    pub fn focused_window(event: &PiriEvent) -> (r: Option<u64>)
        ensures
            r == match event {
                PiriEvent::WindowFocusChanged { id } => *id,
                _ => None,
            },
    {
        match event {
            PiriEvent::WindowFocusChanged { id } => *id,
            _ => None,
        }
    }

    /// The input mode the rules ask for a window with this `app_id` and title.
    pub fn target_mode(&self, app_id: Option<&str>, title: Option<&str>) -> (r: Result<Option<Fcitx5InputMode>, PatternError>)
        ensures
            match rule_mode_from(self.config.rules@, opt_str_view(app_id), opt_str_view(title), 0) {
                Ok(m) => r == Ok::<Option<Fcitx5InputMode>, PatternError>(m),
                Err(p) => r matches Err(e) && e.pattern@ == p,
            },
    {
        let n = self.config.rules.len();
        let mut i: usize = 0;
        while i < n
            invariant
                n == self.config.rules@.len(),
                0 <= i <= n,
                rule_mode_from(self.config.rules@, opt_str_view(app_id), opt_str_view(title), 0)
                    == rule_mode_from(self.config.rules@, opt_str_view(app_id), opt_str_view(title), i as int),
            decreases n - i,
        {
            let rule = &self.config.rules[i];
            let matcher = WindowMatcher::new(opt_vec_ref(&rule.app_id), opt_vec_ref(&rule.title));
            let m = matcher.matches(app_id, title);
            match m {
                Err(e) => {
                    return Err(e);
                },
                Ok(true) => {
                    match Fcitx5InputMode::parse(rule.input_mode.as_str()) {
                        Some(mode) => {
                            return Ok(Some(mode));
                        },
                        None => {},
                    }
                },
                Ok(false) => {},
            }
            i = i + 1;
        }
        Ok(None)
    }

    /// Whether to switch: only when the current mode is known and differs from the target.
    pub fn needs_switch(current: Option<Fcitx5InputMode>, target: Fcitx5InputMode) -> (r: bool)
        ensures
            r == (current is Some && current != Some(target)),
    {
        match current {
            Some(c) => c != target,
            None => false,
        }
    }

    /// Record that a focus change is being handled.
    pub fn record_handled(&mut self, window_id: u64)
        ensures
            final(self).last_handled_window == Some(window_id),
            final(self).last_focused_window == old(self).last_focused_window,
            final(self).config == old(self).config,
    {
        self.last_handled_window = Some(window_id);
    }

    /// Record that the input mode was switched for a window.
    pub fn record_switch(&mut self, window_id: u64)
        ensures
            final(self).last_focused_window == Some(window_id),
            final(self).last_handled_window == old(self).last_handled_window,
            final(self).config == old(self).config,
    {
        self.last_focused_window = Some(window_id);
    }
}

} // verus!
