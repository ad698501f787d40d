//! Workspace identifiers: `name`, `idx` and `name@output` forms, with
//! display-interface prefix matching on the output part.
use vstd::prelude::*;
use vstd::string::*;
use crate::text::{decimal, str_eq, str_is_decimal_of, str_starts_with};

verus! {

/// `s` begins with `p`.
pub open spec fn has_prefix(s: Seq<char>, p: Seq<char>) -> bool {
    p.len() <= s.len() && s.subrange(0, p.len() as int) == p
}

/// The display interface naming conventions, in the order they are tried.
pub open spec fn known_prefixes() -> Seq<Seq<char>> {
    seq!["eDP"@, "DP"@, "HDMI"@, "VGA"@, "DVI-D"@, "DVI-I"@, "Virtual"@]
}

/// The first known interface prefix that `output` starts with, tried from index `k`.
pub open spec fn display_prefix_from(output: Seq<char>, k: int) -> Option<Seq<char>>
    decreases known_prefixes().len() - k,
{
    if k < 0 || k >= known_prefixes().len() {
        None
    } else if has_prefix(output, known_prefixes()[k]) {
        Some(known_prefixes()[k])
    } else {
        display_prefix_from(output, k + 1)
    }
}

/// The display interface prefix of a connector name (`"DP-1"` gives `"DP"`).
pub open spec fn display_prefix(output: Seq<char>) -> Option<Seq<char>> {
    display_prefix_from(output, 0)
}

/// Index of the first `c` in `s` at or after `i`, or `s.len()`.
pub open spec fn find_char_from(s: Seq<char>, c: char, i: int) -> int
    decreases s.len() - i,
{
    if i < 0 || i >= s.len() {
        s.len() as int
    } else if s[i] == c {
        i
    } else {
        find_char_from(s, c, i + 1)
    }
}

/// The text before the first `@` of `s`, and the text after it when there is one
/// (what `s.split_once('@')` gives, with the whole string when there is no `@`).
pub open spec fn split_at_sign(s: Seq<char>) -> (Seq<char>, Option<Seq<char>>) {
    let i = find_char_from(s, '@', 0);
    if i < s.len() {
        (s.subrange(0, i), Some(s.subrange(i + 1, s.len() as int)))
    } else {
        (s, None)
    }
}

/// A workspace part (`name` or `idx`) designates the workspace.
pub open spec fn ws_part_matches(part: Seq<char>, idx: nat, name: Option<Seq<char>>) -> bool {
    name == Some(part) || part == decimal(idx)
}

/// An output part designates `output`: no part, an exact connector, or its interface prefix.
pub open spec fn output_part_matches(part: Option<Seq<char>>, output: Option<Seq<char>>) -> bool {
    match part {
        None => true,
        Some(p) => match output {
            None => false,
            Some(o) => o == p || display_prefix(o) == Some(p),
        },
    }
}

/// One filter entry designates the workspace.
pub open spec fn filter_entry_matches(
    entry: Seq<char>,
    idx: nat,
    name: Option<Seq<char>>,
    output: Option<Seq<char>>,
) -> bool {
    let (ws, out) = split_at_sign(entry);
    ws_part_matches(ws, idx, name) && output_part_matches(out, output)
}

/// An empty filter admits every workspace; otherwise some entry must designate it.
pub open spec fn workspace_filter_admits(
    filter: Seq<String>,
    idx: nat,
    name: Option<Seq<char>>,
    output: Option<Seq<char>>,
) -> bool {
    filter.len() == 0 || exists|i: int|
        0 <= i < filter.len() && filter_entry_matches(#[trigger] filter[i]@, idx, name, output)
}

pub open spec fn opt_view(o: Option<&str>) -> Option<Seq<char>> {
    match o {
        Some(s) => Some(s@),
        None => None,
    }
}

/// The display interface prefix of a connector name.
pub fn extract_display_prefix(output: &str) -> (r: Option<&'static str>)
    ensures
        opt_view(r) == display_prefix(output@),
{
    proof {
        reveal_with_fuel(display_prefix_from, 8);
    }
    if str_starts_with(output, "eDP") {
        Some("eDP")
    } else if str_starts_with(output, "DP") {
        Some("DP")
    } else if str_starts_with(output, "HDMI") {
        Some("HDMI")
    } else if str_starts_with(output, "VGA") {
        Some("VGA")
    } else if str_starts_with(output, "DVI-D") {
        Some("DVI-D")
    } else if str_starts_with(output, "DVI-I") {
        Some("DVI-I")
    } else if str_starts_with(output, "Virtual") {
        Some("Virtual")
    } else {
        None
    }
}

/// Split `s` at its first `@`.
pub fn split_once_at(s: &str) -> (r: (String, Option<String>))
    ensures
        (r.0@, match r.1 {
            Some(o) => Some(o@),
            None => None,
        }) == split_at_sign(s@),
{
    let n = s.unicode_len();
    let mut i: usize = 0;
    while i < n && s.get_char(i) != '@'
        invariant
            n == s@.len(),
            0 <= i <= n,
            find_char_from(s@, '@', 0) == find_char_from(s@, '@', i as int),
        decreases n - i,
    {
        i = i + 1;
    }
    if i < n {
        (String::from_str(s.substring_char(0, i)), Some(String::from_str(s.substring_char(i + 1, n))))
    } else {
        proof {
            assert(s@.subrange(0, n as int) =~= s@);
        }
        (String::from_str(s.substring_char(0, n)), None)
    }
}

/// Whether an output qualifier designates the output.
pub fn output_matches(part: Option<&str>, output: Option<&str>) -> (r: bool)
    ensures
        r == output_part_matches(opt_view(part), opt_view(output)),
{
    match part {
        None => true,
        Some(p) => match output {
            None => false,
            Some(o) => {
                if str_eq(o, p) {
                    true
                } else {
                    match extract_display_prefix(o) {
                        Some(pre) => str_eq(pre, p),
                        None => false,
                    }
                }
            },
        },
    }
}

/// Whether a workspace part designates the workspace with this index and name.
pub fn ws_matches(part: &str, idx: u64, name: Option<&str>) -> (r: bool)
    ensures
        r == ws_part_matches(part@, idx as nat, opt_view(name)),
{
    let by_name = match name {
        Some(n) => str_eq(n, part),
        None => false,
    };
    by_name || str_is_decimal_of(part, idx)
}

/// Whether one `name`, `idx`, `name@output` or `idx@output` entry designates the workspace.
pub fn filter_entry_match(entry: &str, idx: u64, name: Option<&str>, output: Option<&str>) -> (r:
    bool)
    ensures
        r == filter_entry_matches(entry@, idx as nat, opt_view(name), opt_view(output)),
{
    let (ws, out) = split_once_at(entry);
    let out_ref: Option<&str> = match &out {
        Some(o) => Some(o.as_str()),
        None => None,
    };
    ws_matches(ws.as_str(), idx, name) && output_matches(out_ref, output)
}

/// Whether the workspace is admitted by a list of workspace filters (empty admits all).
pub fn workspace_matches_filter(
    idx: u8,
    name: Option<&str>,
    output: Option<&str>,
    workspaces: &[String],
) -> (r: bool)
    ensures
        r == workspace_filter_admits(workspaces@, idx as nat, opt_view(name), opt_view(output)),
{
    let n = workspaces.len();
    if n == 0 {
        return true;
    }
    let mut i: usize = 0;
    while i < n
        invariant
            n == workspaces@.len(),
            0 <= i <= n,
            forall|k: int|
                0 <= k < i ==> !filter_entry_matches(
                    #[trigger] workspaces@[k]@,
                    idx as nat,
                    opt_view(name),
                    opt_view(output),
                ),
        decreases n - i,
    {
        if filter_entry_match(workspaces[i].as_str(), idx as u64, name, output) {
            return true;
        }
        i = i + 1;
    }
    false
}

/// The four ways a configuration key can designate a workspace, in the order they are tried:
/// by name with a matching `@output`, by bare name, by index with a matching `@output`,
/// by bare index.
#[derive(Clone, Copy, PartialEq, Eq, Structural)]
pub enum KeyPass {
    NameAt,
    Name,
    IdxAt,
    Idx,
}

pub open spec fn key_fits(pass: KeyPass, key: Seq<char>, idx: nat, name: Option<Seq<char>>, output: Option<Seq<char>>) -> bool {
    let (ws, out) = split_at_sign(key);
    match pass {
        KeyPass::NameAt => name == Some(ws) && out is Some && output_part_matches(out, output),
        KeyPass::Name => name == Some(ws) && out is None,
        KeyPass::IdxAt => ws == decimal(idx) && out is Some && output_part_matches(out, output),
        KeyPass::Idx => ws == decimal(idx) && out is None,
    }
}

/// Position of the first entry at or after `i` whose key fits in this pass.
pub open spec fn first_fit_from(
    entries: Seq<(String, String)>,
    pass: KeyPass,
    idx: nat,
    name: Option<Seq<char>>,
    output: Option<Seq<char>>,
    i: int,
) -> Option<int>
    decreases entries.len() - i,
{
    if i < 0 || i >= entries.len() {
        None
    } else if key_fits(pass, entries[i].0@, idx, name, output) {
        Some(i)
    } else {
        first_fit_from(entries, pass, idx, name, output, i + 1)
    }
}

/// The entry that configures the workspace: passes tried in order, first fitting entry of a pass.
pub open spec fn resolve_entry(entries: Seq<(String, String)>, idx: nat, name: Option<Seq<char>>, output: Option<Seq<char>>) -> Option<int> {
    match first_fit_from(entries, KeyPass::NameAt, idx, name, output, 0) {
        Some(i) => Some(i),
        None => match first_fit_from(entries, KeyPass::Name, idx, name, output, 0) {
            Some(i) => Some(i),
            None => match first_fit_from(entries, KeyPass::IdxAt, idx, name, output, 0) {
                Some(i) => Some(i),
                None => first_fit_from(entries, KeyPass::Idx, idx, name, output, 0),
            },
        },
    }
}

proof fn lemma_first_fit_found(
    entries: Seq<(String, String)>,
    pass: KeyPass,
    idx: nat,
    name: Option<Seq<char>>,
    output: Option<Seq<char>>,
    from: int,
    i: int,
)
    requires
        0 <= from <= i < entries.len(),
        key_fits(pass, entries[i].0@, idx, name, output),
    ensures
        first_fit_from(entries, pass, idx, name, output, from) matches Some(j) && from <= j <= i
            && key_fits(pass, entries[j].0@, idx, name, output),
    decreases i - from,
{
    if !key_fits(pass, entries[from].0@, idx, name, output) {
        lemma_first_fit_found(entries, pass, idx, name, output, from + 1, i);
    }
}

proof fn lemma_first_fit_fits(
    entries: Seq<(String, String)>,
    pass: KeyPass,
    idx: nat,
    name: Option<Seq<char>>,
    output: Option<Seq<char>>,
    from: int,
)
    requires
        0 <= from,
    ensures
        first_fit_from(entries, pass, idx, name, output, from) matches Some(j) ==> 0 <= j < entries.len()
            && key_fits(pass, entries[j].0@, idx, name, output),
    decreases entries.len() - from,
{
    if from < entries.len() && !key_fits(pass, entries[from].0@, idx, name, output) {
        lemma_first_fit_fits(entries, pass, idx, name, output, from + 1);
    }
}

/// The chosen entry always designates the workspace (by name or index, on a matching output
/// when it names one), and when some entry designates the workspace by its name, the chosen
/// entry designates it by name too: names take precedence over indices.
pub proof fn law_names_before_indices(
    entries: Seq<(String, String)>,
    idx: nat,
    name: Option<Seq<char>>,
    output: Option<Seq<char>>,
    i: int,
)
    requires
        0 <= i < entries.len(),
    ensures
        resolve_entry(entries, idx, name, output) matches Some(j) ==> 0 <= j < entries.len() && (
            key_fits(KeyPass::NameAt, entries[j].0@, idx, name, output)
            || key_fits(KeyPass::Name, entries[j].0@, idx, name, output)
            || key_fits(KeyPass::IdxAt, entries[j].0@, idx, name, output)
            || key_fits(KeyPass::Idx, entries[j].0@, idx, name, output)),
        (key_fits(KeyPass::NameAt, entries[i].0@, idx, name, output) || key_fits(KeyPass::Name, entries[i].0@, idx, name, output))
            ==> (resolve_entry(entries, idx, name, output) matches Some(j) && (
                key_fits(KeyPass::NameAt, entries[j].0@, idx, name, output)
                || key_fits(KeyPass::Name, entries[j].0@, idx, name, output))),
{
    lemma_first_fit_fits(entries, KeyPass::NameAt, idx, name, output, 0);
    lemma_first_fit_fits(entries, KeyPass::Name, idx, name, output, 0);
    lemma_first_fit_fits(entries, KeyPass::IdxAt, idx, name, output, 0);
    lemma_first_fit_fits(entries, KeyPass::Idx, idx, name, output, 0);
    if key_fits(KeyPass::NameAt, entries[i].0@, idx, name, output) {
        lemma_first_fit_found(entries, KeyPass::NameAt, idx, name, output, 0, i);
    }
    if key_fits(KeyPass::Name, entries[i].0@, idx, name, output) {
        lemma_first_fit_found(entries, KeyPass::Name, idx, name, output, 0, i);
    }
}

fn key_fit(pass: KeyPass, key: &str, idx: u64, name: Option<&str>, output: Option<&str>) -> (r: bool)
    ensures
        r == key_fits(pass, key@, idx as nat, opt_view(name), opt_view(output)),
{
    let (ws, out) = split_once_at(key);
    let by_name = match name {
        Some(n) => str_eq(n, ws.as_str()),
        None => false,
    };
    match pass {
        KeyPass::NameAt => match &out {
            Some(o) => by_name && output_matches(Some(o.as_str()), output),
            None => false,
        },
        KeyPass::Name => by_name && out.is_none(),
        KeyPass::IdxAt => match &out {
            Some(o) => str_is_decimal_of(ws.as_str(), idx) && output_matches(Some(o.as_str()), output),
            None => false,
        },
        KeyPass::Idx => str_is_decimal_of(ws.as_str(), idx) && out.is_none(),
    }
}

fn first_fit(entries: &Vec<(String, String)>, pass: KeyPass, idx: u64, name: Option<&str>, output: Option<&str>) -> (r: Option<usize>)
    ensures
        match first_fit_from(entries@, pass, idx as nat, opt_view(name), opt_view(output), 0) {
            Some(i) => r matches Some(k) && k as int == i,
            None => r is None,
        },
{
    let n = entries.len();
    let mut i: usize = 0;
    while i < n
        invariant
            n == entries@.len(),
            0 <= i <= n,
            first_fit_from(entries@, pass, idx as nat, opt_view(name), opt_view(output), 0)
                == first_fit_from(entries@, pass, idx as nat, opt_view(name), opt_view(output), i as int),
        decreases n - i,
    {
        if key_fit(pass, entries[i].0.as_str(), idx, name, output) {
            return Some(i);
        }
        i = i + 1;
    }
    None
}

/// The value configured for a workspace, keys being `name`, `idx`, `name@output` or `idx@output`.
pub fn resolve_workspace_config<'a>(
    entries: &'a Vec<(String, String)>,
    idx: u8,
    name: Option<&str>,
    output: Option<&str>,
) -> (r: Option<&'a String>)
    ensures
        match resolve_entry(entries@, idx as nat, opt_view(name), opt_view(output)) {
            Some(i) => 0 <= i < entries@.len() && (r matches Some(v) && *v == entries@[i].1),
            None => r is None,
        },
{
    proof {
        lemma_first_fit_range(entries@, KeyPass::NameAt, idx as nat, opt_view(name), opt_view(output), 0);
        lemma_first_fit_range(entries@, KeyPass::Name, idx as nat, opt_view(name), opt_view(output), 0);
        lemma_first_fit_range(entries@, KeyPass::IdxAt, idx as nat, opt_view(name), opt_view(output), 0);
        lemma_first_fit_range(entries@, KeyPass::Idx, idx as nat, opt_view(name), opt_view(output), 0);
    }
    let found = match first_fit(entries, KeyPass::NameAt, idx as u64, name, output) {
        Some(i) => Some(i),
        None => match first_fit(entries, KeyPass::Name, idx as u64, name, output) {
            Some(i) => Some(i),
            None => match first_fit(entries, KeyPass::IdxAt, idx as u64, name, output) {
                Some(i) => Some(i),
                None => first_fit(entries, KeyPass::Idx, idx as u64, name, output),
            },
        },
    };
    assert(match resolve_entry(entries@, idx as nat, opt_view(name), opt_view(output)) {
        Some(i) => (found matches Some(k) && k as int == i) && 0 <= i < entries@.len(),
        None => found is None,
    });
    match found {
        Some(i) => {
            let e = &entries[i];
            Some(&e.1)
        },
        None => None,
    }
}

proof fn lemma_first_fit_range(
    entries: Seq<(String, String)>,
    pass: KeyPass,
    idx: nat,
    name: Option<Seq<char>>,
    output: Option<Seq<char>>,
    i: int,
)
    requires
        0 <= i,
    ensures
        first_fit_from(entries, pass, idx, name, output, i) matches Some(k) ==> i <= k < entries.len(),
    decreases entries.len() - i,
{
    if i < entries.len() && !key_fits(pass, entries[i].0@, idx, name, output) {
        lemma_first_fit_range(entries, pass, idx, name, output, i + 1);
    }
}

} // verus!
