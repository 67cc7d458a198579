//! The rule matcher: maps a window's title and executable name to an
//! optional target opacity under a rule store.

use vstd::prelude::*;
use crate::config::Config;
use crate::config::WindowConfig;
use crate::text::contains_substring;
use crate::text::is_substring;

verus! {

/// Does rule `r` cover a window with this title and executable name?
/// Matching is deliberately by substring: titles frequently carry
/// document-name suffixes.
pub open spec fn rule_matches(r: WindowConfig, title: Seq<char>, exe: Seq<char>) -> bool {
    ||| (r.title matches Some(t) && is_substring(title, t@))
    ||| (r.executable matches Some(e) && is_substring(exe, e@))
}

/// First-match resolution over the rules from index `i` on, falling
/// back to the default opacity when no rule from `i` on matches.
pub open spec fn resolve_from(c: Config, title: Seq<char>, exe: Seq<char>, i: int) -> Option<u8>
    decreases c.specific_windows@.len() - i,
{
    if i < 0 || i >= c.specific_windows@.len() {
        c.default_opacity
    } else if rule_matches(c.specific_windows@[i], title, exe) {
        Some(c.specific_windows@[i].opacity)
    } else {
        resolve_from(c, title, exe, i + 1)
    }
}

/// The matcher's whole policy: the first matching rule wins; with no
/// match the default opacity (possibly absent) decides.
pub open spec fn resolve_spec(c: Config, title: Seq<char>, exe: Seq<char>) -> Option<u8> {
    resolve_from(c, title, exe, 0)
}

/// Scan the rules in stored order; the first rule whose title is a
/// substring of the window's title, or whose executable is a substring
/// of the window's executable name, decides the opacity; otherwise the
/// default opacity decides.
pub fn determine_opacity(title: &str, exe_name: &str, config: &Config) -> (r: Option<u8>)
    ensures
        r == resolve_spec(*config, title@, exe_name@),
{
    let n: usize = config.specific_windows.len();
    let mut i: usize = 0;
    while i < n
        invariant
            n == config.specific_windows@.len(),
            i <= n,
            resolve_spec(*config, title@, exe_name@) == resolve_from(
                *config,
                title@,
                exe_name@,
                i as int,
            ),
        decreases n - i,
    {
        let wc = &config.specific_windows[i];
        let mut hit = match &wc.title {
            Some(t) => contains_substring(title, t.as_str()),
            None => false,
        };
        if !hit {
            hit = match &wc.executable {
                Some(e) => contains_substring(exe_name, e.as_str()),
                None => false,
            };
        }
        if hit {
            assert(rule_matches(config.specific_windows@[i as int], title@, exe_name@));
            return Some(wc.opacity);
        }
        assert(!rule_matches(config.specific_windows@[i as int], title@, exe_name@));
        i += 1;
    }
    config.default_opacity
}

/// With an empty rule list, every window resolves to the default
/// opacity, whatever its title and executable name.
pub proof fn lemma_default_fallback(c: Config, title: Seq<char>, exe: Seq<char>)
    requires
        c.specific_windows@.len() == 0,
    ensures
        resolve_spec(c, title, exe) == c.default_opacity,
{
}

/// With an empty rule list and no default opacity, no window resolves
/// to any opacity at all.
pub proof fn lemma_no_match_no_default(c: Config, title: Seq<char>, exe: Seq<char>)
    requires
        c.specific_windows@.len() == 0,
        c.default_opacity is None,
    ensures
        resolve_spec(c, title, exe) is None,
{
}

proof fn lemma_resolve_from_wf(c: Config, title: Seq<char>, exe: Seq<char>, i: int)
    requires
        crate::config::config_wf(c),
    ensures
        resolve_from(c, title, exe, i) matches Some(p) ==> p <= 100,
    decreases c.specific_windows@.len() - i,
{
    if 0 <= i < c.specific_windows@.len() {
        lemma_resolve_from_wf(c, title, exe, i + 1);
    }
}

/// A well-formed store only ever resolves to a percentage.
pub proof fn lemma_resolve_wf(c: Config, title: Seq<char>, exe: Seq<char>)
    requires
        crate::config::config_wf(c),
    ensures
        resolve_spec(c, title, exe) matches Some(p) ==> p <= 100,
{
    lemma_resolve_from_wf(c, title, exe, 0);
}

proof fn lemma_resolve_from_first_match(c: Config, title: Seq<char>, exe: Seq<char>, k: int, i: int)
    requires
        0 <= k <= i < c.specific_windows@.len(),
        rule_matches(c.specific_windows@[i], title, exe),
        forall|j: int| k <= j < i ==> !rule_matches(c.specific_windows@[j], title, exe),
    ensures
        resolve_from(c, title, exe, k) == Some(c.specific_windows@[i].opacity),
    decreases i - k,
{
    if k < i {
        lemma_resolve_from_first_match(c, title, exe, k + 1, i);
    }
}

/// First match wins: if rule `i` matches the window and no earlier
/// rule does, resolution returns rule `i`'s opacity, whatever follows.
pub proof fn lemma_first_match_wins(c: Config, title: Seq<char>, exe: Seq<char>, i: int)
    requires
        0 <= i < c.specific_windows@.len(),
        rule_matches(c.specific_windows@[i], title, exe),
        forall|j: int| 0 <= j < i ==> !rule_matches(c.specific_windows@[j], title, exe),
    ensures
        resolve_spec(c, title, exe) == Some(c.specific_windows@[i].opacity),
{
    lemma_resolve_from_first_match(c, title, exe, 0, i);
}

} // verus!
