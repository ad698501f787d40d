//! Window matching: regular expressions on `app_id` and `title`, either
//! matching (OR), any pattern of a list matching.
use vstd::prelude::*;
use vstd::string::*;
use crate::window::Window;

verus! {

#[verifier::external_type_specification]
#[verifier::external_body]
pub struct ExRegex(regex::Regex);

#[verifier::external_type_specification]
#[verifier::external_body]
pub struct ExRegexError(regex::Error);

/// Whether `regex::Regex::new` accepts a pattern.
pub uninterp spec fn regex_compiles(pattern: Seq<char>) -> bool;

/// Whether the regex that `regex::Regex::new` builds from `pattern` (default options)
/// matches somewhere in `text`.
pub uninterp spec fn regex_matches(pattern: Seq<char>, text: Seq<char>) -> bool;

/// Whether a compiled regex value matches somewhere in `text` (`Regex::is_match`); how it
/// matches depends on the options it was built with, not only on its pattern.
pub uninterp spec fn regex_value_matches(re: regex::Regex, text: Seq<char>) -> bool;

/// `regex::Regex::new`: compiles a pattern with the default options; fails exactly on
/// patterns it does not accept. A regex it returns matches a text exactly when the regex
/// built from that pattern by `Regex::new` does.
#[verifier::external_body]
pub(crate) fn regex_new(pattern: &str) -> (r: Result<regex::Regex, regex::Error>)
    ensures
        r is Ok <==> regex_compiles(pattern@),
        r matches Ok(re) ==> forall|t: Seq<char>| #[trigger] regex_value_matches(re, t) == regex_matches(pattern@, t),
{
    regex::Regex::new(pattern)
}

/// `regex::Regex::is_match`: whether the regex matches somewhere in `text`.
#[verifier::external_body]
pub(crate) fn regex_is_match(re: &regex::Regex, text: &str) -> (r: bool)
    ensures
        r == regex_value_matches(*re, text@),
{
    re.is_match(text)
}

/// A pattern that does not compile.
#[derive(Debug)]
pub struct PatternError {
    pub pattern: String,
}

/// The outcome of trying `patterns[i..]` on `text`: the first invalid pattern before a
/// match is an error; a match is `true`; none matching is `false`.
pub open spec fn patterns_match_from(patterns: Seq<String>, text: Seq<char>, i: int) -> Result<bool, Seq<char>>
    decreases patterns.len() - i,
{
    if i < 0 || i >= patterns.len() {
        Ok(false)
    } else if !regex_compiles(patterns[i]@) {
        Err(patterns[i]@)
    } else if regex_matches(patterns[i]@, text) {
        Ok(true)
    } else {
        patterns_match_from(patterns, text, i + 1)
    }
}

proof fn lemma_patterns_props(patterns: Seq<String>, text: Seq<char>, i: int)
    requires
        0 <= i,
    ensures
        patterns_match_from(patterns, text, i) == Ok::<bool, Seq<char>>(false) ==> forall|j: int|
            i <= j < patterns.len() ==> regex_compiles(#[trigger] patterns[j]@) && !regex_matches(patterns[j]@, text),
        patterns_match_from(patterns, text, i) == Ok::<bool, Seq<char>>(true) ==> exists|k: int|
            i <= k < patterns.len() && regex_compiles(#[trigger] patterns[k]@) && regex_matches(patterns[k]@, text),
        patterns_match_from(patterns, text, i) matches Err(p) ==> exists|k: int|
            i <= k < patterns.len() && #[trigger] patterns[k]@ == p && !regex_compiles(p),
        (exists|k: int| i <= k < patterns.len() && #[trigger] regex_compiles(patterns[k]@) && regex_matches(patterns[k]@, text))
            ==> patterns_match_from(patterns, text, i) != Ok::<bool, Seq<char>>(false),
    decreases patterns.len() - i,
{
    if i < patterns.len() {
        lemma_patterns_props(patterns, text, i + 1);
        if exists|k: int| i <= k < patterns.len() && #[trigger] regex_compiles(patterns[k]@) && regex_matches(patterns[k]@, text) {
            let k = choose|k: int| i <= k < patterns.len() && #[trigger] regex_compiles(patterns[k]@) && regex_matches(patterns[k]@, text);
            if k > i {
                assert(i + 1 <= k < patterns.len() && regex_compiles(patterns[k]@) && regex_matches(patterns[k]@, text));
            }
        }
    }
}

/// A list of patterns matches a text when one of them does; no match means every pattern
/// compiles and none matches; an error names a pattern of the list that does not compile.
pub proof fn law_any_pattern_matches(patterns: Seq<String>, text: Seq<char>)
    ensures
        patterns_match_from(patterns, text, 0) == Ok::<bool, Seq<char>>(false) ==> forall|j: int|
            0 <= j < patterns.len() ==> regex_compiles(#[trigger] patterns[j]@) && !regex_matches(patterns[j]@, text),
        patterns_match_from(patterns, text, 0) == Ok::<bool, Seq<char>>(true) ==> exists|k: int|
            0 <= k < patterns.len() && regex_compiles(#[trigger] patterns[k]@) && regex_matches(patterns[k]@, text),
        patterns_match_from(patterns, text, 0) matches Err(p) ==> exists|k: int|
            0 <= k < patterns.len() && #[trigger] patterns[k]@ == p && !regex_compiles(p),
        (exists|k: int| 0 <= k < patterns.len() && #[trigger] regex_compiles(patterns[k]@) && regex_matches(patterns[k]@, text))
            ==> patterns_match_from(patterns, text, 0) != Ok::<bool, Seq<char>>(false),
{
    lemma_patterns_props(patterns, text, 0);
}

/// Patterns matched against an optional field: an absent field or no patterns match nothing.
pub open spec fn field_matches(patterns: Option<Seq<String>>, field: Option<Seq<char>>) -> Result<bool, Seq<char>> {
    match patterns {
        None => Ok(false),
        Some(p) => match field {
            None => Ok(false),
            Some(t) => patterns_match_from(p, t, 0),
        },
    }
}

/// A window matches when its `app_id` matches (tried first) or its title matches.
pub open spec fn window_matches(
    app_patterns: Option<Seq<String>>,
    title_patterns: Option<Seq<String>>,
    app_id: Option<Seq<char>>,
    title: Option<Seq<char>>,
) -> Result<bool, Seq<char>> {
    match field_matches(app_patterns, app_id) {
        Err(p) => Err(p),
        Ok(true) => Ok(true),
        Ok(false) => field_matches(title_patterns, title),
    }
}

/// With patterns that compile, a window matches exactly when its `app_id` matches or its
/// title matches; a field without patterns (or absent) matches nothing.
pub proof fn law_match_is_or(
    app_patterns: Option<Seq<String>>,
    title_patterns: Option<Seq<String>>,
    app_id: Option<Seq<char>>,
    title: Option<Seq<char>>,
)
    requires
        field_matches(app_patterns, app_id) is Ok,
        field_matches(title_patterns, title) is Ok,
    ensures
        window_matches(app_patterns, title_patterns, app_id, title) == Ok::<bool, Seq<char>>(
            field_matches(app_patterns, app_id)->Ok_0 || field_matches(title_patterns, title)->Ok_0,
        ),
        app_patterns is None && title_patterns is None ==> window_matches(app_patterns, title_patterns, app_id, title)
            == Ok::<bool, Seq<char>>(false),
{
}

pub open spec fn opt_vec_view(o: Option<&Vec<String>>) -> Option<Seq<String>> {
    match o {
        Some(v) => Some(v@),
        None => None,
    }
}

pub open spec fn opt_str_view(o: Option<&str>) -> Option<Seq<char>> {
    match o {
        Some(s) => Some(s@),
        None => None,
    }
}

pub open spec fn result_view(r: Result<bool, PatternError>) -> Result<bool, Seq<char>> {
    match r {
        Ok(b) => Ok(b),
        Err(e) => Err(e.pattern@),
    }
}

/// Try each pattern on `text` in order.
pub fn patterns_match(patterns: &Vec<String>, text: &str) -> (r: Result<bool, PatternError>)
    ensures
        result_view(r) == patterns_match_from(patterns@, text@, 0),
{
    let n = patterns.len();
    let mut i: usize = 0;
    while i < n
        invariant
            n == patterns@.len(),
            0 <= i <= n,
            patterns_match_from(patterns@, text@, 0) == patterns_match_from(patterns@, text@, i as int),
        decreases n - i,
    {
        match regex_new(patterns[i].as_str()) {
            Err(_) => {
                return Err(PatternError { pattern: patterns[i].clone() });
            },
            Ok(re) => {
                if regex_is_match(&re, text) {
                    return Ok(true);
                }
            },
        }
        i = i + 1;
    }
    Ok(false)
}

/// Patterns matched against an optional field.
pub fn match_field(patterns: Option<&Vec<String>>, field: Option<&str>) -> (r: Result<bool, PatternError>)
    ensures
        result_view(r) == field_matches(opt_vec_view(patterns), opt_str_view(field)),
{
    match patterns {
        None => Ok(false),
        Some(p) => match field {
            None => Ok(false),
            Some(t) => patterns_match(p, t),
        },
    }
}

/// Window matcher: regex patterns for `app_id` and/or `title`.
pub struct WindowMatcher<'a> {
    pub app_id: Option<&'a Vec<String>>,
    pub title: Option<&'a Vec<String>>,
}

impl<'a> WindowMatcher<'a> {
    pub fn new(app_id: Option<&'a Vec<String>>, title: Option<&'a Vec<String>>) -> (r: Self)
        ensures
            r.app_id == app_id,
            r.title == title,
    {
        WindowMatcher { app_id, title }
    }

    /// Whether a window with this `app_id` and title matches.
    pub fn matches(&self, app_id: Option<&str>, title: Option<&str>) -> (r: Result<bool, PatternError>)
        ensures
            result_view(r) == window_matches(
                opt_vec_view(self.app_id),
                opt_vec_view(self.title),
                opt_str_view(app_id),
                opt_str_view(title),
            ),
    {
        match match_field(self.app_id, app_id) {
            Err(e) => Err(e),
            Ok(true) => Ok(true),
            Ok(false) => match_field(self.title, title),
        }
    }
}

/// An owned optional text by its characters.
pub open spec fn opt_owned_view(o: Option<String>) -> Option<Seq<char>> {
    match o {
        Some(s) => Some(s@),
        None => None,
    }
}

/// The first window of `windows[i..]` that matches (by its `app_id` and title): its id, or
/// `None` when none does; a pattern that does not compile, met before a match, is an error.
pub open spec fn first_match_from(
    app_patterns: Option<Seq<String>>,
    title_patterns: Option<Seq<String>>,
    windows: Seq<Window>,
    i: int,
) -> Result<Option<u64>, Seq<char>>
    decreases windows.len() - i,
{
    if i < 0 || i >= windows.len() {
        Ok(None)
    } else {
        match window_matches(app_patterns, title_patterns, opt_owned_view(windows[i].app_id), opt_owned_view(windows[i].title)) {
            Err(p) => Err(p),
            Ok(true) => Ok(Some(windows[i].id)),
            Ok(false) => first_match_from(app_patterns, title_patterns, windows, i + 1),
        }
    }
}

pub open spec fn found_view(r: Result<Option<u64>, PatternError>) -> Result<Option<u64>, Seq<char>> {
    match r {
        Ok(o) => Ok(o),
        Err(e) => Err(e.pattern@),
    }
}

fn opt_as_str(o: &Option<String>) -> (r: Option<&str>)
    ensures
        opt_str_view(r) == opt_owned_view(*o),
{
    match o {
        Some(s) => Some(s.as_str()),
        None => None,
    }
}

impl<'a> WindowMatcher<'a> {
    /// The first of `windows` that matches, in list order.
    pub fn first_match(&self, windows: &[Window]) -> (r: Result<Option<u64>, PatternError>)
        ensures
            found_view(r) == first_match_from(opt_vec_view(self.app_id), opt_vec_view(self.title), windows@, 0),
    {
        let n = windows.len();
        let mut i: usize = 0;
        while i < n
            invariant
                n == windows@.len(),
                0 <= i <= n,
                first_match_from(opt_vec_view(self.app_id), opt_vec_view(self.title), windows@, 0)
                    == first_match_from(opt_vec_view(self.app_id), opt_vec_view(self.title), windows@, i as int),
            decreases n - i,
        {
            let w = &windows[i];
            match self.matches(opt_as_str(&w.app_id), opt_as_str(&w.title)) {
                Err(e) => return Err(e),
                Ok(true) => return Ok(Some(w.id)),
                Ok(false) => {},
            }
            i = i + 1;
        }
        Ok(None)
    }
}

pub fn opt_vec_ref(o: &Option<Vec<String>>) -> (r: Option<&Vec<String>>)
    ensures
        opt_vec_view(r) == match o {
            Some(v) => Some(v@),
            None => None::<Seq<String>>,
        },
{
    match o {
        Some(v) => Some(v),
        None => None,
    }
}

} // verus!
