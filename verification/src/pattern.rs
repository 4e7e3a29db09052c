//! Shell-style name patterns, compiled and matched by the `glob` crate, as the
//! include and exclude filters of a scan use them.
use vstd::prelude::*;

verus! {

#[verifier::external_type_specification]
#[verifier::external_body]
pub struct ExGlobPattern(glob::Pattern);

/// Whether `glob::Pattern::new` accepts this pattern text. It depends on the
/// text alone (and on which characters the build target treats as path
/// separators).
pub uninterp spec fn glob_pattern_valid(pattern: Seq<char>) -> bool;

/// Whether `glob::Pattern::matches`, with the default match options, finds that
/// the pattern compiled from the first text matches the second text.
pub uninterp spec fn glob_matches(pattern: Seq<char>, text: Seq<char>) -> bool;

/// A compiled pattern, together with the text it was compiled from.
pub struct GlobPattern {
    pat: glob::Pattern,
    source: Ghost<Seq<char>>,
}

impl GlobPattern {
    /// The text this pattern was compiled from.
    pub closed spec fn source(&self) -> Seq<char> {
        self.source@
    }
}

/// `glob::Pattern::new`: compiles a pattern, `None` where the crate reports a
/// `PatternError`. Claims that success depends on the text alone and that the
/// compiled value remembers its text; it does not describe the pattern syntax.
#[verifier::external_body]
fn glob_compile(pattern: &str) -> (r: Option<GlobPattern>)
    ensures
        r is Some <==> glob_pattern_valid(pattern@),
        r matches Some(g) ==> g.source() == pattern@,
{
    match glob::Pattern::new(pattern) {
        Ok(pat) => Some(GlobPattern { pat, source: Ghost(pattern@) }),
        Err(_) => None,
    }
}

/// `glob::Pattern::matches`: claims only that the answer is a function of the
/// pattern's text and of the matched text.
#[verifier::external_body]
fn glob_match(g: &GlobPattern, text: &str) -> (r: bool)
    ensures
        r == glob_matches(g.source(), text@),
{
    g.pat.matches(text)
}

/// A pattern hits a text when it compiles and matches it; a pattern that does
/// not compile hits nothing.
pub open spec fn pattern_hits(pattern: Seq<char>, text: Seq<char>) -> bool {
    glob_pattern_valid(pattern) && glob_matches(pattern, text)
}

/// The views of a list of strings.
pub open spec fn string_views(v: Seq<String>) -> Seq<Seq<char>> {
    v.map_values(|s: String| s@)
}

/// Some pattern of the list hits the text.
pub open spec fn any_pattern_hits(patterns: Seq<Seq<char>>, text: Seq<char>) -> bool {
    exists|i: int| 0 <= i < patterns.len() && pattern_hits(#[trigger] patterns[i], text)
}

/// Whether one of the patterns hits the text (an empty list hits nothing).
pub fn matches_any(patterns: &Vec<String>, text: &str) -> (r: bool)
    ensures
        r == any_pattern_hits(string_views(patterns@), text@),
{
    let ghost ps = string_views(patterns@);
    let n = patterns.len();
    let mut i: usize = 0;
    while i < n
        invariant
            0 <= i <= n,
            n == patterns@.len(),
            ps == string_views(patterns@),
            forall|k: int| 0 <= k < i ==> !pattern_hits(#[trigger] ps[k], text@),
        decreases n - i,
    {
        let p = patterns[i].as_str();
        assert(ps[i as int] == p@);
        match glob_compile(p) {
            Some(g) => {
                if glob_match(&g, text) {
                    assert(pattern_hits(ps[i as int], text@));
                    return true;
                }
            },
            None => {},
        }
        i = i + 1;
    }
    false
}

/// The name filters of a scan: with includes, some include must hit; no
/// exclude may hit.
pub open spec fn passes_filters(
    includes: Seq<Seq<char>>,
    excludes: Seq<Seq<char>>,
    text: Seq<char>,
) -> bool {
    &&& (includes.len() == 0 || any_pattern_hits(includes, text))
    &&& !any_pattern_hits(excludes, text)
}

pub fn filters_accept(includes: &Vec<String>, excludes: &Vec<String>, text: &str) -> (r: bool)
    ensures
        r == passes_filters(string_views(includes@), string_views(excludes@), text@),
{
    if includes.len() > 0 && !matches_any(includes, text) {
        return false;
    }
    if excludes.len() > 0 && matches_any(excludes, text) {
        return false;
    }
    proof {
        if excludes.len() == 0 {
            assert(!any_pattern_hits(string_views(excludes@), text@));
        }
    }
    true
}

} // verus!
