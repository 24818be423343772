//! Searching a text for the patterns of a rule. A rule may name several
//! patterns for one failure; they are tried in the order in which they are
//! given, and the first one that matches decides.

use vstd::prelude::*;

verus! {

/// `regex::Error`: why a pattern was refused. Nothing is claimed of what it
/// holds.
#[verifier::external_type_specification]
#[verifier::external_body]
pub struct ExRegexError(regex::Error);

/// Whether `regex::Regex::new` accepts `pattern` as a regular expression.
pub uninterp spec fn regex_accepts(pattern: Seq<char>) -> bool;

/// What `regex::Regex::captures` finds in `text` with the expression that
/// `pattern` compiles to: nothing where the expression matches nowhere, else
/// the groups of its leftmost match, the whole match being group 0. A group
/// that took no part in the match is absent.
pub uninterp spec fn regex_captures(pattern: Seq<char>, text: Seq<char>) -> Option<
    Seq<Option<Seq<char>>>,
>;

/// The groups of one match, by their position in the pattern: group 0 is the
/// whole match, group `i` the part that the `i`-th opening bracket caught.
#[derive(Clone, Debug)]
pub struct Captures {
    pub groups: Vec<Option<String>>,
}

impl View for Captures {
    type V = Seq<Option<Seq<char>>>;

    open spec fn view(&self) -> Seq<Option<Seq<char>>> {
        self.groups.deep_view()
    }
}

/// The text that group `i` caught, if `groups` has such a group and it took
/// part in the match.
pub open spec fn group(groups: Seq<Option<Seq<char>>>, i: int) -> Option<Seq<char>> {
    if 0 <= i < groups.len() {
        groups[i]
    } else {
        None
    }
}

/// The characters of a text that may be absent.
pub open spec fn opt_text(t: Option<&str>) -> Option<Seq<char>> {
    match t {
        Some(s) => Some(s@),
        None => None,
    }
}

/// The groups of a match that may be absent.
pub open spec fn opt_groups(found: Option<Captures>) -> Option<Seq<Option<Seq<char>>>> {
    match found {
        Some(c) => Some(c@),
        None => None,
    }
}

impl Captures {
    /// The number of groups, the whole match included.
    pub fn len(&self) -> (n: usize)
        ensures
            n == self@.len(),
    {
        self.groups.len()
    }

    /// The text that group `i` caught.
    pub fn get(&self, i: usize) -> (g: Option<&str>)
        ensures
            opt_text(g) == group(self@, i as int),
    {
        if i < self.groups.len() {
            match &self.groups[i] {
                Some(s) => Some(s.as_str()),
                None => None,
            }
        } else {
            None
        }
    }
}

/// Compiles `pattern` with `regex::Regex::new` and searches `text` with
/// `regex::Regex::captures`. The error of the first call is handed on. Of a
/// match, each group is copied out as `regex::Captures::get` and
/// `regex::Match::as_str` give it, for the indices below
/// `regex::Captures::len`. The contract gives both results their names and
/// claims nothing more of them.
#[verifier::external_body]
fn search(pattern: &str, text: &str) -> (r: Result<Option<Captures>, regex::Error>)
    ensures
        r is Ok == regex_accepts(pattern@),
        r matches Ok(found) ==> opt_groups(found) == regex_captures(pattern@, text@),
{
    let re = regex::Regex::new(pattern)?;
    Ok(
        re.captures(text).map(
            |caps|
                Captures {
                    groups: (0..caps.len()).map(
                        |i| caps.get(i).map(|m| m.as_str().to_string()),
                    ).collect(),
                },
        ),
    )
}

/// What one pattern finds in a text. A pattern that is no regular expression
/// finds nothing.
pub open spec fn pattern_match(pattern: Seq<char>, text: Seq<char>) -> Option<
    Seq<Option<Seq<char>>>,
> {
    if regex_accepts(pattern) {
        regex_captures(pattern, text)
    } else {
        None
    }
}

/// What the patterns from index `from` on find in a text: the match of the
/// first among them that matches.
pub open spec fn first_match_from(patterns: Seq<Seq<char>>, text: Seq<char>, from: int) -> Option<
    Seq<Option<Seq<char>>>,
>
    decreases patterns.len() - from,
{
    if from < 0 || from >= patterns.len() {
        None
    } else if pattern_match(patterns[from], text) is Some {
        pattern_match(patterns[from], text)
    } else {
        first_match_from(patterns, text, from + 1)
    }
}

/// What a list of alternative patterns finds in a text.
pub open spec fn first_match(patterns: Seq<Seq<char>>, text: Seq<char>) -> Option<
    Seq<Option<Seq<char>>>,
> {
    first_match_from(patterns, text, 0)
}

/// The first group of a match that may be absent.
pub open spec fn first_group(found: Option<Seq<Option<Seq<char>>>>) -> Option<Option<Seq<char>>> {
    match found {
        Some(groups) => Some(group(groups, 1)),
        None => None,
    }
}

/// The characters of each pattern of a list.
pub open spec fn pattern_views(patterns: Seq<&str>) -> Seq<Seq<char>> {
    patterns.map_values(|p: &str| p@)
}

/// Whether `pattern` is a regular expression. A pattern that is none finds
/// nothing in any text, so a rule that names one is silent where it should
/// speak.
pub fn is_pattern(pattern: &str) -> (ok: bool)
    ensures
        ok == regex_accepts(pattern@),
{
    search(pattern, "").is_ok()
}

/// Searches `text` for one pattern.
pub fn match_pattern(text: &str, pattern: &str) -> (found: Option<Captures>)
    ensures
        opt_groups(found) == pattern_match(pattern@, text@),
{
    match search(pattern, text) {
        Ok(found) => found,
        Err(_) => None,
    }
}

/// Searches `text` for each of `patterns` in turn and returns the groups of
/// the first that matches, or nothing where none does.
pub fn grab_all(text: &str, patterns: &[&str]) -> (found: Option<Captures>)
    ensures
        opt_groups(found) == first_match(pattern_views(patterns@), text@),
{
    let mut i: usize = 0;
    while i < patterns.len()
        invariant
            i <= patterns.len(),
            first_match(pattern_views(patterns@), text@) == first_match_from(
                pattern_views(patterns@),
                text@,
                i as int,
            ),
        decreases patterns.len() - i,
    {
        let found = match_pattern(text, patterns[i]);
        if found.is_some() {
            return found;
        }
        i += 1;
    }
    None
}

/// Searches as `grab_all` does and returns, of the first match, what its
/// first group caught.
pub fn grab(text: &str, patterns: &[&str]) -> (found: Option<Option<String>>)
    ensures
        found.deep_view() == first_group(first_match(pattern_views(patterns@), text@)),
{
    match grab_all(text, patterns) {
        Some(caps) => match caps.get(1) {
            Some(s) => Some(Some(String::from_str(s))),
            None => Some(None),
        },
        None => None,
    }
}

/// Where no pattern of the list matches, the list finds nothing.
pub proof fn lemma_no_pattern_matches(patterns: Seq<Seq<char>>, text: Seq<char>)
    requires
        forall|j: int| 0 <= j < patterns.len() ==> pattern_match(#[trigger] patterns[j], text) is None,
    ensures
        first_match(patterns, text) is None,
{
    lemma_first_match_from(patterns, text, 0, patterns.len() as int);
}

/// The first pattern that matches decides: where pattern `i` matches and no
/// pattern before it does, the list finds what pattern `i` finds, whatever
/// the patterns after it would find.
pub proof fn lemma_first_match_wins(patterns: Seq<Seq<char>>, text: Seq<char>, i: int)
    requires
        0 <= i < patterns.len(),
        pattern_match(patterns[i], text) is Some,
        forall|j: int| 0 <= j < i ==> pattern_match(#[trigger] patterns[j], text) is None,
    ensures
        first_match(patterns, text) == pattern_match(patterns[i], text),
{
    lemma_first_match_from(patterns, text, 0, i);
}

/// Where the list finds something, it is what the first matching pattern finds.
pub proof fn lemma_first_match_source(patterns: Seq<Seq<char>>, text: Seq<char>) -> (i: int)
    requires
        first_match(patterns, text) is Some,
    ensures
        0 <= i < patterns.len(),
        first_match(patterns, text) == pattern_match(patterns[i], text),
        forall|j: int| 0 <= j < i ==> pattern_match(#[trigger] patterns[j], text) is None,
{
    lemma_first_match_index(patterns, text, 0)
}

proof fn lemma_first_match_from(patterns: Seq<Seq<char>>, text: Seq<char>, from: int, to: int)
    requires
        0 <= from <= to <= patterns.len(),
        forall|j: int| from <= j < to ==> pattern_match(#[trigger] patterns[j], text) is None,
    ensures
        first_match_from(patterns, text, from) == first_match_from(patterns, text, to),
    decreases to - from,
{
    if from < to {
        lemma_first_match_from(patterns, text, from + 1, to);
    }
}

proof fn lemma_first_match_index(patterns: Seq<Seq<char>>, text: Seq<char>, from: int) -> (i: int)
    requires
        0 <= from,
        first_match_from(patterns, text, from) is Some,
    ensures
        from <= i < patterns.len(),
        first_match_from(patterns, text, from) == pattern_match(patterns[i], text),
        forall|j: int| from <= j < i ==> pattern_match(#[trigger] patterns[j], text) is None,
    decreases patterns.len() - from,
{
    if pattern_match(patterns[from], text) is Some {
        from
    } else {
        lemma_first_match_index(patterns, text, from + 1)
    }
}

} // verus!
