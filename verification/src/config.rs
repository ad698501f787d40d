//! Configuration: scratchpad directions, plugin switches, section defaults and
//! the scratchpad table reader.
use vstd::prelude::*;
use vstd::string::*;
use crate::text::{char_is_ws, is_ws, skip_ws_from, str_eq, trim, trim_str};
use crate::tomlx::{entry_flag, entry_int, entry_str, get_flag, get_integer, get_str, toml_table_entries};

verus! {

/// Direction from which a scratchpad appears.
#[derive(Debug, Clone, Copy, PartialEq, Eq, Structural)]
pub enum Direction {
    Top,
    Bottom,
    Left,
    Right,
}

/// The configuration name of a direction.
pub open spec fn direction_name(d: Direction) -> Seq<char> {
    match d {
        Direction::Top => "fromTop"@,
        Direction::Bottom => "fromBottom"@,
        Direction::Left => "fromLeft"@,
        Direction::Right => "fromRight"@,
    }
}

/// The direction a configuration name designates, if any.
pub open spec fn direction_named(s: Seq<char>) -> Option<Direction> {
    if s == "fromTop"@ {
        Some(Direction::Top)
    } else if s == "fromBottom"@ {
        Some(Direction::Bottom)
    } else if s == "fromLeft"@ {
        Some(Direction::Left)
    } else if s == "fromRight"@ {
        Some(Direction::Right)
    } else {
        None
    }
}

/// Every direction's name reads back as that direction.
pub proof fn law_direction_name_round_trip(d: Direction)
    ensures
        direction_named(direction_name(d)) == Some(d),
{
    reveal_strlit("fromTop");
    reveal_strlit("fromBottom");
    reveal_strlit("fromLeft");
    reveal_strlit("fromRight");
    assert("fromTop"@.len() == 7);
    assert("fromBottom"@.len() == 10);
    assert("fromLeft"@.len() == 8);
    assert("fromRight"@.len() == 9);
}

/// Errors of reading configuration values.
#[derive(Debug, PartialEq, Eq)]
pub enum ConfigError {
    /// A direction other than fromTop, fromBottom, fromLeft, fromRight.
    InvalidDirection(String),
    /// A required field is absent or of the wrong kind.
    MissingField(&'static str),
    /// `sticky` and `auto_hide_on_focus_loss` are both set.
    StickyWithAutoHide,
    /// A size that is not two whitespace-separated `N%` parts.
    SizeFormat(String),
    /// A size part without the `%` suffix (the part, and whether it is the width).
    SizeSuffix(String, bool),
}

impl ConfigError {
    /// What the error says.
    pub fn message(&self) -> (r: String)
        ensures
            match self {
                ConfigError::InvalidDirection(s) => r@ == "Invalid direction: "@ + s@
                    + ". Must be one of: fromTop, fromBottom, fromLeft, fromRight"@,
                ConfigError::MissingField(f) => r@ == "Missing '"@ + f@ + "' field"@,
                ConfigError::StickyWithAutoHide => r@
                    == "'sticky' and 'auto_hide_on_focus_loss' cannot both be enabled for a scratchpad"@,
                ConfigError::SizeFormat(s) => r@ == "Size must be in format 'width% height%', got: "@ + s@,
                ConfigError::SizeSuffix(p, w) => r@ == (if *w { "Width must end with %, got: "@ } else {
                    "Height must end with %, got: "@ }) + p@,
            },
    {
        match self {
            ConfigError::InvalidDirection(s) => String::from_str("Invalid direction: ").concat(
                s.as_str(),
            ).concat(". Must be one of: fromTop, fromBottom, fromLeft, fromRight"),
            ConfigError::MissingField(f) => String::from_str("Missing '").concat(f).concat("' field"),
            ConfigError::StickyWithAutoHide => String::from_str(
                "'sticky' and 'auto_hide_on_focus_loss' cannot both be enabled for a scratchpad",
            ),
            ConfigError::SizeFormat(s) => String::from_str("Size must be in format 'width% height%', got: ").concat(
                s.as_str(),
            ),
            ConfigError::SizeSuffix(p, w) => if *w {
                String::from_str("Width must end with %, got: ").concat(p.as_str())
            } else {
                String::from_str("Height must end with %, got: ").concat(p.as_str())
            },
        }
    }
}

impl Direction {
    /// Convert Direction to string.
    pub fn as_str(&self) -> (r: &'static str)
        ensures
            r@ == direction_name(*self),
    {
        match self {
            Direction::Top => "fromTop",
            Direction::Bottom => "fromBottom",
            Direction::Left => "fromLeft",
            Direction::Right => "fromRight",
        }
    }

    /// Parse a direction name.
    pub fn parse(s: &str) -> (r: Result<Direction, ConfigError>)
        ensures
            match direction_named(s@) {
                Some(d) => r == Ok::<Direction, ConfigError>(d),
                None => r matches Err(ConfigError::InvalidDirection(v)) && v@ == s@,
            },
    {
        if str_eq(s, "fromTop") {
            Ok(Direction::Top)
        } else if str_eq(s, "fromBottom") {
            Ok(Direction::Bottom)
        } else if str_eq(s, "fromLeft") {
            Ok(Direction::Left)
        } else if str_eq(s, "fromRight") {
            Ok(Direction::Right)
        } else {
            Err(ConfigError::InvalidDirection(String::from_str(s)))
        }
    }
}

/// Which plugins are switched on.
#[derive(Debug, Clone, Default)]
pub struct PluginsConfig {
    pub scratchpads: Option<bool>,
    pub empty: Option<bool>,
    pub window_rule: Option<bool>,
    pub autofill: Option<bool>,
    pub singleton: Option<bool>,
    pub window_order: Option<bool>,
    pub swallow: Option<bool>,
    pub workspace_rule: Option<bool>,
    pub fcitx5: Option<bool>,
    pub sleepy: Option<bool>,
    pub mark: Option<bool>,
    pub sticky: Option<bool>,
    pub empty_config: Option<crate::empty::EmptyPluginConfig>,
}

pub open spec fn on(b: Option<bool>) -> bool {
    b == Some(true)
}

impl PluginsConfig {
    /// A plugin is enabled when its switch is set to true; unknown names are off.
    pub open spec fn enabled(&self, name: Seq<char>) -> bool {
        if name == "scratchpads"@ {
            on(self.scratchpads)
        } else if name == "empty"@ {
            on(self.empty)
        } else if name == "window_rule"@ {
            on(self.window_rule)
        } else if name == "singleton"@ {
            on(self.singleton)
        } else if name == "window_order"@ {
            on(self.window_order)
        } else if name == "swallow"@ {
            on(self.swallow)
        } else if name == "workspace_rule"@ {
            on(self.workspace_rule)
        } else if name == "fcitx5"@ {
            on(self.fcitx5)
        } else if name == "sleepy"@ {
            on(self.sleepy)
        } else if name == "mark"@ {
            on(self.mark)
        } else if name == "sticky"@ {
            on(self.sticky)
        } else {
            false
        }
    }

    /// Whether the named plugin is enabled.
    pub fn is_enabled(&self, name: &str) -> (r: bool)
        ensures
            r == self.enabled(name@),
    {
        let flag = if str_eq(name, "scratchpads") {
            self.scratchpads
        } else if str_eq(name, "empty") {
            self.empty
        } else if str_eq(name, "window_rule") {
            self.window_rule
        } else if str_eq(name, "singleton") {
            self.singleton
        } else if str_eq(name, "window_order") {
            self.window_order
        } else if str_eq(name, "swallow") {
            self.swallow
        } else if str_eq(name, "workspace_rule") {
            self.workspace_rule
        } else if str_eq(name, "fcitx5") {
            self.fcitx5
        } else if str_eq(name, "sleepy") {
            self.sleepy
        } else if str_eq(name, "mark") {
            self.mark
        } else if str_eq(name, "sticky") {
            self.sticky
        } else {
            None
        };
        match flag {
            Some(b) => b,
            None => false,
        }
    }
}

/// Niri connection settings.
#[derive(Debug, Clone, Default)]
pub struct NiriConfig {
    /// Path to the niri socket.
    pub socket_path: Option<String>,
}

/// Mark plugin settings.
#[derive(Debug, Clone, Default)]
pub struct MarkSection {
    /// Toggling a mark that is already focused returns to the previous window.
    pub refocus: bool,
}

/// A command run when switching to an empty workspace.
#[derive(Debug, Clone)]
pub struct EmptyWorkspaceConfig {
    pub command: String,
}

/// A single-instance application.
#[derive(Debug)]
pub struct SingletonConfig {
    /// Command that launches the application.
    pub command: String,
    /// Pattern for the window's app_id (taken from the command when absent).
    pub app_id: Option<String>,
    /// Command run after the window is newly created.
    pub on_created_command: Option<String>,
}

impl Clone for SingletonConfig {
    fn clone(&self) -> (r: Self)
        ensures
            r == *self,
    {
        SingletonConfig {
            command: self.command.clone(),
            app_id: self.app_id.clone(),
            on_created_command: self.on_created_command.clone(),
        }
    }
}

/// A window placement / focus rule.
#[derive(Debug, Clone)]
pub struct WindowRuleConfig {
    /// Regex patterns for the app_id.
    pub app_id: Option<Vec<String>>,
    /// Regex patterns for the title.
    pub title: Option<Vec<String>>,
    /// Target workspace (`name`, `idx`, optionally `@output`, `!` to lock).
    pub open_on_workspace: Option<String>,
    /// Command run when a matching window is focused.
    pub focus_command: Option<String>,
    /// Run `focus_command` only once for this rule.
    pub focus_command_once: bool,
}

/// Defaults for dynamically added scratchpads.
#[derive(Debug, Clone)]
pub struct ScratchpadDefaults {
    pub default_size: String,
    pub default_margin: u32,
    pub move_to_workspace: Option<String>,
}

/// Window order section of the daemon settings.
#[derive(Debug, Clone)]
pub struct WindowOrderSection {
    pub enable_event_listener: bool,
    pub default_weight: u32,
    pub workspaces: Vec<String>,
}

/// A swallow rule: child windows of a parent replace it in the layout.
#[derive(Debug, Clone)]
pub struct SwallowRule {
    pub parent_app_id: Option<Vec<String>>,
    pub child_app_id: Option<Vec<String>>,
    pub exclude_child_app_id: Option<Vec<String>>,
}

/// Windows never swallowed.
#[derive(Debug, Clone)]
pub struct SwallowExclude {
    pub app_id: Option<Vec<String>>,
}

/// Swallow section of the daemon settings.
#[derive(Debug, Clone)]
pub struct SwallowSection {
    pub rules: Vec<SwallowRule>,
    pub use_pid_matching: bool,
    pub exclude: Option<SwallowExclude>,
}

/// Layout rules of one workspace. The edge indicator settings that go with them are floating
/// point and are kept by the program, not here.
#[derive(Debug, Clone)]
pub struct WorkspaceRuleConfig {
    /// Entry `k` lists the widths for `k + 1` windows (one width for all, or one per window).
    pub auto_width: Vec<Vec<String>>,
    /// Allow up to two windows per column (except the first column).
    pub auto_tile: bool,
    /// Align the last column to the right edge.
    pub auto_fill: bool,
    /// Maximize a lone window, unmaximize when there are more.
    pub auto_maximize: bool,
}

/// Default layout rules, for workspaces without rules of their own.
#[derive(Debug, Clone)]
pub struct WorkspaceRuleSection {
    pub auto_width: Vec<Vec<String>>,
    pub auto_tile: bool,
    pub auto_fill: bool,
    pub auto_maximize: bool,
}

impl WorkspaceRuleSection {
    /// No widths and every switch off.
    pub fn default() -> (r: Self)
        ensures
            r.auto_width@.len() == 0,
            !r.auto_tile,
            !r.auto_fill,
            !r.auto_maximize,
    {
        WorkspaceRuleSection { auto_width: Vec::new(), auto_tile: false, auto_fill: false, auto_maximize: false }
    }
}

/// The daemon's own settings.
#[derive(Debug, Clone)]
pub struct PiriConfig {
    pub scratchpad: ScratchpadDefaults,
    pub plugins: PluginsConfig,
    pub window_order: WindowOrderSection,
    pub swallow: SwallowSection,
    pub workspace_rule: WorkspaceRuleSection,
    pub mark: MarkSection,
}

/// The configuration the plugins read; maps keyed by name are lists of distinct names.
#[derive(Debug, Clone)]
pub struct Config {
    pub niri: NiriConfig,
    pub piri: PiriConfig,
    pub scratchpads: Vec<(String, ScratchpadConfig)>,
    pub empty: Vec<(String, EmptyWorkspaceConfig)>,
    pub singleton: Vec<(String, SingletonConfig)>,
    pub window_rule: Vec<WindowRuleConfig>,
    pub window_order: Vec<(String, u32)>,
    pub swallow: Vec<SwallowRule>,
    pub workspace_rule: Vec<(String, WorkspaceRuleConfig)>,
    pub fcitx5: Vec<crate::fcitx5::Fcitx5WindowRule>,
    pub sleepy: Option<crate::sleepy::SleepyConfig>,
}

pub fn default_true() -> (r: bool)
    ensures
        r,
{
    true
}

/// Default scratchpad size.
pub fn default_size() -> (r: String)
    ensures
        r@ == "75% 60%"@,
{
    String::from_str("75% 60%")
}

/// Default scratchpad margin in pixels.
pub fn default_margin() -> (r: u32)
    ensures
        r == 50,
{
    50
}

/// Automatic window reordering is off by default.
pub fn default_enable_event_listener() -> (r: bool)
    ensures
        !r,
{
    false
}

/// Unconfigured windows weigh 0 (rightmost).
pub fn default_window_order_weight() -> (r: u32)
    ensures
        r == 0,
{
    0
}

/// Default edge indicator width in pixels.
pub fn default_edge_pulse_width() -> (r: u32)
    ensures
        r == 14,
{
    14
}

/// Default edge indicator animation style.
pub fn default_animation_style() -> (r: String)
    ensures
        r@ == "pulse"@,
{
    String::from_str("pulse")
}

/// Default number of edge indicator animation cycles.
pub fn default_animation_repeat() -> (r: u32)
    ensures
        r == 3,
{
    3
}

/// Default left edge gradient start colour.
pub fn default_left_start() -> (r: String)
    ensures
        r@ == "#68d8ff"@,
{
    String::from_str("#68d8ff")
}

/// Default left edge gradient end colour.
pub fn default_left_end() -> (r: String)
    ensures
        r@ == "#1f4fff"@,
{
    String::from_str("#1f4fff")
}

/// Default right edge gradient start colour.
pub fn default_right_start() -> (r: String)
    ensures
        r@ == "#ffd36a"@,
{
    String::from_str("#ffd36a")
}

/// Default right edge gradient end colour.
pub fn default_right_end() -> (r: String)
    ensures
        r@ == "#ff7a1f"@,
{
    String::from_str("#ff7a1f")
}

impl ScratchpadDefaults {
    pub fn default() -> (r: Self)
        ensures
            r.default_size@ == "75% 60%"@,
            r.default_margin == 50,
            r.move_to_workspace is None,
    {
        ScratchpadDefaults { default_size: default_size(), default_margin: default_margin(), move_to_workspace: None }
    }
}

impl WindowOrderSection {
    pub fn default() -> (r: Self)
        ensures
            !r.enable_event_listener,
            r.default_weight == 0,
            r.workspaces@.len() == 0,
    {
        WindowOrderSection {
            enable_event_listener: default_enable_event_listener(),
            default_weight: default_window_order_weight(),
            workspaces: Vec::new(),
        }
    }
}

impl SwallowSection {
    pub fn default() -> (r: Self)
        ensures
            r.rules@.len() == 0,
            r.use_pid_matching,
            r.exclude is None,
    {
        SwallowSection { rules: Vec::new(), use_pid_matching: default_true(), exclude: None }
    }
}

/// Either a single string or a list of strings.
pub enum StringOrVec {
    String(String),
    Vec(Vec<String>),
}

impl StringOrVec {
    /// The strings, a single one as a list of one.
    pub fn into_vec(self) -> (r: Vec<String>)
        ensures
            match self {
                StringOrVec::String(s) => r@ == seq![s],
                StringOrVec::Vec(v) => r@ == v@,
            },
    {
        match self {
            StringOrVec::String(s) => {
                let mut v: Vec<String> = Vec::new();
                v.push(s);
                v
            },
            StringOrVec::Vec(v) => v,
        }
    }
}

/// A width, or one width per window: `"50%"` or `["45%", "55%"]`.
pub enum WidthValue {
    String(String),
    Vec(Vec<String>),
}

/// The widths a value stands for.
pub open spec fn width_list(v: WidthValue) -> Seq<String> {
    match v {
        WidthValue::String(s) => seq![s],
        WidthValue::Vec(l) => l@,
    }
}

impl WidthValue {
    /// The widths, a single one as a list of one.
    pub fn into_vec(self) -> (r: Vec<String>)
        ensures
            r@ == width_list(self),
    {
        match self {
            WidthValue::String(s) => {
                let mut v: Vec<String> = Vec::new();
                v.push(s);
                v
            },
            WidthValue::Vec(v) => v,
        }
    }
}

/// An automatic-width table: entry `k` lists the widths for `k + 1` windows.
pub fn auto_width_lists(values: Vec<WidthValue>) -> (r: Vec<Vec<String>>)
    ensures
        r@.len() == values@.len(),
        forall|k: int| 0 <= k < r@.len() ==> #[trigger] r@[k]@ == width_list(values@[k]),
{
    let ghost orig = values@;
    let mut out: Vec<Vec<String>> = Vec::new();
    let mut rest = values;
    while rest.len() > 0
        invariant
            out@.len() <= orig.len(),
            rest@ == orig.subrange(out@.len() as int, orig.len() as int),
            forall|k: int| 0 <= k < out@.len() ==> #[trigger] out@[k]@ == width_list(orig[k]),
        decreases rest@.len(),
    {
        let v = rest.remove(0);
        out.push(v.into_vec());
        proof {
            assert(rest@ =~= orig.subrange(out@.len() as int, orig.len() as int));
        }
    }
    out
}

/// A scratchpad.
#[derive(Debug)]
pub struct ScratchpadConfig {
    /// Direction from which the scratchpad appears.
    pub direction: Direction,
    /// Command that launches the application.
    pub command: String,
    /// Pattern for the window's app_id.
    pub app_id: String,
    /// Size, e.g. "75% 60%".
    pub size: String,
    /// Margin from the edge in pixels.
    pub margin: u32,
    /// Swallow the window into the focused window when shown.
    pub swallow_to_focus: bool,
    /// Follow the focused workspace.
    pub sticky: bool,
    /// Hide when the window loses focus.
    pub auto_hide_on_focus_loss: bool,
    /// Toggling a focused scratchpad returns to the previous window.
    pub refocus: bool,
}

impl Clone for ScratchpadConfig {
    fn clone(&self) -> (r: Self)
        ensures
            r == *self,
    {
        ScratchpadConfig {
            direction: self.direction,
            command: self.command.clone(),
            app_id: self.app_id.clone(),
            size: self.size.clone(),
            margin: self.margin,
            swallow_to_focus: self.swallow_to_focus,
            sticky: self.sticky,
            auto_hide_on_focus_loss: self.auto_hide_on_focus_loss,
            refocus: self.refocus,
        }
    }
}

/// Index of the first whitespace character at or after `i`, or the length.
pub open spec fn word_end(s: Seq<char>, i: int) -> int
    decreases s.len() - i,
{
    if 0 <= i < s.len() && !is_ws(s[i]) {
        word_end(s, i + 1)
    } else {
        i
    }
}

/// The two whitespace-separated words of `s`, when it has exactly two.
pub open spec fn two_words(s: Seq<char>) -> Option<(Seq<char>, Seq<char>)> {
    let t = trim(s);
    let i = word_end(t, 0);
    let j = skip_ws_from(t, i);
    if 0 < i < t.len() && j < t.len() && word_end(t, j) == t.len() {
        Some((t.subrange(0, i), t.subrange(j, t.len() as int)))
    } else {
        None
    }
}

/// `s` without a trailing `%`, when it has one.
pub open spec fn strip_percent(s: Seq<char>) -> Option<Seq<char>> {
    if s.len() > 0 && s.last() == '%' {
        Some(s.drop_last())
    } else {
        None
    }
}

/// The width and height numbers of a size such as "75% 60%", as text.
pub open spec fn size_numbers(size: Seq<char>) -> Result<(Seq<char>, Seq<char>), SizeError> {
    match two_words(size) {
        None => Err(SizeError::Format),
        Some(p) => match strip_percent(p.0) {
            None => Err(SizeError::Width(p.0)),
            Some(w) => match strip_percent(p.1) {
                None => Err(SizeError::Height(p.1)),
                Some(h) => Ok((w, h)),
            },
        },
    }
}

/// Why a size is rejected.
pub enum SizeError {
    Format,
    Width(Seq<char>),
    Height(Seq<char>),
}

pub(crate) fn word_end_exec(s: &str, n: usize, i: usize) -> (r: usize)
    requires
        n == s@.len(),
        i <= n,
    ensures
        r == word_end(s@, i as int),
        i <= r <= n,
{
    let mut k = i;
    while k < n && !char_is_ws(s.get_char(k))
        invariant
            n == s@.len(),
            i <= k <= n,
            word_end(s@, i as int) == word_end(s@, k as int),
        decreases n - k,
    {
        k = k + 1;
    }
    k
}

pub(crate) fn skip_ws_exec(s: &str, n: usize, i: usize) -> (r: usize)
    requires
        n == s@.len(),
        i <= n,
    ensures
        r == skip_ws_from(s@, i as int),
        i <= r <= n,
{
    let mut k = i;
    while k < n && char_is_ws(s.get_char(k))
        invariant
            n == s@.len(),
            i <= k <= n,
            skip_ws_from(s@, i as int) == skip_ws_from(s@, k as int),
        decreases n - k,
    {
        k = k + 1;
    }
    k
}

/// The two whitespace-separated words of `s`, when it has exactly two.
pub fn split_two_words(s: &str) -> (r: Option<(String, String)>)
    ensures
        match two_words(s@) {
            Some(p) => r matches Some(q) && q.0@ == p.0 && q.1@ == p.1,
            None => r is None,
        },
{
    let t = trim_str(s);
    let ts = t.as_str();
    let n = ts.unicode_len();
    let i = word_end_exec(ts, n, 0);
    let j = skip_ws_exec(ts, n, i);
    if 0 < i && i < n && j < n && word_end_exec(ts, n, j) == n {
        Some((String::from_str(ts.substring_char(0, i)), String::from_str(ts.substring_char(j, n))))
    } else {
        None
    }
}

fn strip_percent_exec(s: &str) -> (r: Option<String>)
    ensures
        match strip_percent(s@) {
            Some(x) => r matches Some(y) && y@ == x,
            None => r is None,
        },
{
    let n = s.unicode_len();
    if n > 0 && s.get_char(n - 1) == '%' {
        Some(String::from_str(s.substring_char(0, n - 1)))
    } else {
        None
    }
}

impl ScratchpadConfig {
    /// The width and height percentages of `size` as number text ("75% 60%" gives "75", "60").
    pub fn size_percentages(&self) -> (r: Result<(String, String), ConfigError>)
        ensures
            match size_numbers(self.size@) {
                Ok(p) => r matches Ok(q) && q.0@ == p.0 && q.1@ == p.1,
                Err(SizeError::Format) => r matches Err(ConfigError::SizeFormat(v)) && v@ == self.size@,
                Err(SizeError::Width(w)) => r matches Err(ConfigError::SizeSuffix(v, true)) && v@ == w,
                Err(SizeError::Height(h)) => r matches Err(ConfigError::SizeSuffix(v, false)) && v@ == h,
            },
    {
        match split_two_words(self.size.as_str()) {
            None => Err(ConfigError::SizeFormat(self.size.clone())),
            Some((w, h)) => match strip_percent_exec(w.as_str()) {
                None => Err(ConfigError::SizeSuffix(w, true)),
                Some(wn) => match strip_percent_exec(h.as_str()) {
                    None => Err(ConfigError::SizeSuffix(h, false)),
                    Some(hn) => Ok((wn, hn)),
                },
            },
        }
    }

    /// Read a scratchpad from a TOML table: `direction`, `command`, `size`, `margin` and
    /// `app_id` are required; the flags default to false; `sticky` excludes
    /// `auto_hide_on_focus_loss`.
    pub fn try_from_table(table: &toml::Table) -> (r: Result<ScratchpadConfig, ConfigError>)
        ensures
            ({
                let e = toml_table_entries(*table);
                match entry_str(e, "direction"@) {
                    None => r matches Err(ConfigError::MissingField(f)) && f@ == "direction"@,
                    Some(d) => match direction_named(d) {
                        None => r matches Err(ConfigError::InvalidDirection(v)) && v@ == d,
                        Some(dir) => if entry_str(e, "command"@) is None {
                            r matches Err(ConfigError::MissingField(f)) && f@ == "command"@
                        } else if entry_str(e, "size"@) is None {
                            r matches Err(ConfigError::MissingField(f)) && f@ == "size"@
                        } else if entry_int(e, "margin"@) is None {
                            r matches Err(ConfigError::MissingField(f)) && f@ == "margin"@
                        } else if entry_str(e, "app_id"@) is None {
                            r matches Err(ConfigError::MissingField(f)) && f@ == "app_id"@
                        } else if entry_flag(e, "sticky"@) && entry_flag(e, "auto_hide_on_focus_loss"@) {
                            r == Err::<ScratchpadConfig, ConfigError>(ConfigError::StickyWithAutoHide)
                        } else {
                            r matches Ok(c) && {
                                &&& c.direction == dir
                                &&& Some(c.command@) == entry_str(e, "command"@)
                                &&& Some(c.size@) == entry_str(e, "size"@)
                                &&& c.margin == entry_int(e, "margin"@).unwrap() as u32
                                &&& Some(c.app_id@) == entry_str(e, "app_id"@)
                                &&& c.swallow_to_focus == entry_flag(e, "swallow_to_focus"@)
                                &&& c.sticky == entry_flag(e, "sticky"@)
                                &&& c.auto_hide_on_focus_loss == entry_flag(e, "auto_hide_on_focus_loss"@)
                                &&& c.refocus == entry_flag(e, "refocus"@)
                            }
                        },
                    },
                }
            }),
    {
        let direction = match get_str(table, "direction") {
            None => return Err(ConfigError::MissingField("direction")),
            Some(d) => Direction::parse(d)?,
        };
        let command = match get_str(table, "command") {
            None => return Err(ConfigError::MissingField("command")),
            Some(c) => String::from_str(c),
        };
        let size = match get_str(table, "size") {
            None => return Err(ConfigError::MissingField("size")),
            Some(c) => String::from_str(c),
        };
        let margin = match get_integer(table, "margin") {
            None => return Err(ConfigError::MissingField("margin")),
            Some(m) => m as u32,
        };
        let app_id = match get_str(table, "app_id") {
            None => return Err(ConfigError::MissingField("app_id")),
            Some(c) => String::from_str(c),
        };
        let swallow_to_focus = get_flag(table, "swallow_to_focus");
        let sticky = get_flag(table, "sticky");
        let auto_hide_on_focus_loss = get_flag(table, "auto_hide_on_focus_loss");
        let refocus = get_flag(table, "refocus");
        if sticky && auto_hide_on_focus_loss {
            return Err(ConfigError::StickyWithAutoHide);
        }
        Ok(ScratchpadConfig {
            direction,
            command,
            app_id,
            size,
            margin,
            swallow_to_focus,
            sticky,
            auto_hide_on_focus_loss,
            refocus,
        })
    }
}

} // verus!
