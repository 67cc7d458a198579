//! The durable opacity rule store and its mutations.

use vstd::prelude::*;
use crate::text::str_eq;

verus! {

/// One opacity rule. A window matches it when the rule's `title` is a
/// substring of the window's title, or the rule's `executable` is a
/// substring of the window's executable name. A rule with neither
/// field set is inert.
#[derive(Debug, Clone, PartialEq, Eq)]
pub struct WindowConfig {
    pub title: Option<String>,
    pub executable: Option<String>,
    pub opacity: u8,
}

/// The whole rule store: an ordered rule list (first match wins) and
/// an optional default opacity for windows no rule covers.
#[derive(Debug, Clone, PartialEq, Eq)]
pub struct Config {
    pub default_opacity: Option<u8>,
    pub specific_windows: Vec<WindowConfig>,
}

/// An opacity is a percentage.
pub open spec fn opacity_wf(p: u8) -> bool {
    p <= 100
}

pub open spec fn rule_wf(r: WindowConfig) -> bool {
    opacity_wf(r.opacity)
}

/// Well-formedness of the store: every opacity in it is a percentage.
pub open spec fn config_wf(c: Config) -> bool {
    &&& (c.default_opacity matches Some(d) ==> opacity_wf(d))
    &&& (forall|i: int| 0 <= i < c.specific_windows@.len() ==> rule_wf(c.specific_windows@[i]))
}

impl Default for Config {
    /// The empty store: no default opacity and no rules.
    fn default() -> (c: Config)
        ensures
            c.default_opacity is None,
            c.specific_windows@.len() == 0,
            config_wf(c),
    {
        Config { default_opacity: None, specific_windows: Vec::new() }
    }
}

/// Is rule `r` keyed to exactly this window: its title equal to the
/// window's title, or its executable equal to the window's executable
/// name? Persistence bookkeeping tests field equality, unlike the
/// matcher's substring test.
pub open spec fn rule_keyed_to(r: WindowConfig, title: Seq<char>, exe: Seq<char>) -> bool {
    ||| (r.title matches Some(t) && t@ == title)
    ||| (r.executable matches Some(e) && e@ == exe)
}

/// Some stored rule is keyed to this window.
pub open spec fn has_rule_keyed_to(
    rules: Seq<WindowConfig>,
    title: Seq<char>,
    exe: Seq<char>,
) -> bool {
    exists|i: int| 0 <= i < rules.len() && rule_keyed_to(rules[i], title, exe)
}

/// Rule `r` is the persisted rule for exactly this window at this
/// opacity.
pub open spec fn is_rule_for(r: WindowConfig, title: Seq<char>, exe: Seq<char>, op: u8) -> bool {
    &&& (r.title matches Some(t) && t@ == title)
    &&& (r.executable matches Some(e) && e@ == exe)
    &&& r.opacity == op
}

/// The rule list with every rule keyed to the window removed, order
/// otherwise kept.
pub open spec fn remove_keyed(
    rules: Seq<WindowConfig>,
    title: Seq<char>,
    exe: Seq<char>,
) -> Seq<WindowConfig>
    decreases rules.len(),
{
    if rules.len() == 0 {
        rules
    } else if rule_keyed_to(rules[0], title, exe) {
        remove_keyed(rules.drop_first(), title, exe)
    } else {
        seq![rules[0]] + remove_keyed(rules.drop_first(), title, exe)
    }
}

/// Nothing keyed to the window survives the removal pass.
pub proof fn lemma_remove_keyed_removes_all(rules: Seq<WindowConfig>, title: Seq<char>, exe: Seq<char>)
    ensures
        forall|i: int|
            0 <= i < remove_keyed(rules, title, exe).len() ==> !rule_keyed_to(
                #[trigger] remove_keyed(rules, title, exe)[i],
                title,
                exe,
            ),
    decreases rules.len(),
{
    if rules.len() > 0 {
        lemma_remove_keyed_removes_all(rules.drop_first(), title, exe);
        let rest = remove_keyed(rules.drop_first(), title, exe);
        let whole = remove_keyed(rules, title, exe);
        if !rule_keyed_to(rules[0], title, exe) {
            assert forall|i: int| 0 <= i < whole.len() implies !rule_keyed_to(
                whole[i],
                title,
                exe,
            ) by {
                if i == 0 {
                    assert(whole[0] == rules[0]);
                } else {
                    assert(whole[i] == rest[i - 1]);
                }
            }
        }
    }
}

/// The removal pass hands back well-formed rules when it was given
/// well-formed rules.
pub proof fn lemma_remove_keyed_preserves_wf(rules: Seq<WindowConfig>, title: Seq<char>, exe: Seq<char>)
    requires
        forall|i: int| 0 <= i < rules.len() ==> rule_wf(rules[i]),
    ensures
        forall|i: int|
            0 <= i < remove_keyed(rules, title, exe).len() ==> rule_wf(
                #[trigger] remove_keyed(rules, title, exe)[i],
            ),
    decreases rules.len(),
{
    if rules.len() > 0 {
        assert(forall|i: int|
            0 <= i < rules.drop_first().len() ==> rule_wf(#[trigger] rules.drop_first()[i]));
        lemma_remove_keyed_preserves_wf(rules.drop_first(), title, exe);
        let rest = remove_keyed(rules.drop_first(), title, exe);
        let whole = remove_keyed(rules, title, exe);
        if !rule_keyed_to(rules[0], title, exe) {
            assert forall|i: int| 0 <= i < whole.len() implies rule_wf(whole[i]) by {
                if i == 0 {
                    assert(whole[0] == rules[0]);
                } else {
                    assert(whole[i] == rest[i - 1]);
                }
            }
        }
    }
}

/// Is this rule keyed to exactly this window?
pub fn rule_is_keyed_to(r: &WindowConfig, title: &str, exe: &str) -> (b: bool)
    ensures
        b == rule_keyed_to(*r, title@, exe@),
{
    let t_hit = match &r.title {
        Some(t) => str_eq(t.as_str(), title),
        None => false,
    };
    if t_hit {
        return true;
    }
    match &r.executable {
        Some(e) => str_eq(e.as_str(), exe),
        None => false,
    }
}

/// Does any stored rule key to this window?
pub fn has_rule_for(config: &Config, title: &str, exe: &str) -> (b: bool)
    ensures
        b == has_rule_keyed_to(config.specific_windows@, title@, exe@),
{
    let n: usize = config.specific_windows.len();
    let mut i: usize = 0;
    while i < n
        invariant
            n == config.specific_windows@.len(),
            i <= n,
            forall|j: int|
                0 <= j < i ==> !rule_keyed_to(#[trigger] config.specific_windows@[j], title@, exe@),
        decreases n - i,
    {
        if rule_is_keyed_to(&config.specific_windows[i], title, exe) {
            return true;
        }
        i += 1;
    }
    false
}

/// Remove every rule keyed to this window, keeping the order of the
/// rest; the default opacity is untouched.
pub fn remove_rules_for(config: &mut Config, title: &str, exe: &str)
    ensures
        final(config).specific_windows@ == remove_keyed(
            old(config).specific_windows@,
            title@,
            exe@,
        ),
        final(config).default_opacity == old(config).default_opacity,
{
    let ghost orig = config.specific_windows@;
    proof {
        assert(orig.subrange(0, orig.len() as int) =~= orig);
        assert(orig.subrange(0, 0) =~= Seq::<WindowConfig>::empty());
        assert(Seq::<WindowConfig>::empty() + remove_keyed(orig, title@, exe@) =~= remove_keyed(
            orig,
            title@,
            exe@,
        ));
    }
    let mut i: usize = 0;
    while i < config.specific_windows.len()
        invariant
            i <= config.specific_windows@.len(),
            config.default_opacity == old(config).default_opacity,
            forall|j: int|
                0 <= j < i ==> !rule_keyed_to(#[trigger] config.specific_windows@[j], title@, exe@),
            remove_keyed(orig, title@, exe@) =~= config.specific_windows@.subrange(0, i as int)
                + remove_keyed(
                config.specific_windows@.subrange(i as int, config.specific_windows@.len() as int),
                title@,
                exe@,
            ),
        decreases config.specific_windows@.len() - i,
    {
        let ghost cur = config.specific_windows@;
        let ghost tail = cur.subrange(i as int, cur.len() as int);
        let keyed = rule_is_keyed_to(&config.specific_windows[i], title, exe);
        proof {
            assert(tail[0] == cur[i as int]);
            assert(tail.drop_first() =~= cur.subrange(i as int + 1, cur.len() as int));
        }
        if keyed {
            let _removed = config.specific_windows.remove(i);
            proof {
                assert(config.specific_windows@ =~= cur.subrange(0, i as int) + cur.subrange(
                    i as int + 1,
                    cur.len() as int,
                ));
                assert(config.specific_windows@.subrange(0, i as int) =~= cur.subrange(
                    0,
                    i as int,
                ));
                assert(config.specific_windows@.subrange(
                    i as int,
                    config.specific_windows@.len() as int,
                ) =~= cur.subrange(i as int + 1, cur.len() as int));
            }
        } else {
            proof {
                assert(cur.subrange(0, i as int + 1) =~= cur.subrange(0, i as int).push(
                    cur[i as int],
                ));
                assert(cur.subrange(0, i as int) + remove_keyed(tail, title@, exe@) =~= cur.subrange(
                    0,
                    i as int + 1,
                ) + remove_keyed(tail.drop_first(), title@, exe@));
            }
            i += 1;
        }
    }
    proof {
        let fin = config.specific_windows@;
        assert(fin.subrange(0, fin.len() as int) =~= fin);
        assert(fin.subrange(fin.len() as int, fin.len() as int) =~= Seq::<WindowConfig>::empty());
        assert(remove_keyed(orig, title@, exe@) =~= fin);
    }
}

/// Replace whatever rule is keyed to the window: remove every rule
/// keyed to the same title-or-executable, then append one rule
/// carrying this window's title, executable name and opacity.
pub fn upsert_rule(config: &mut Config, title: &str, exe: &str, op: u8)
    ensures
        final(config).default_opacity == old(config).default_opacity,
        final(config).specific_windows@.len() == remove_keyed(
            old(config).specific_windows@,
            title@,
            exe@,
        ).len() + 1,
        final(config).specific_windows@.drop_last() =~= remove_keyed(
            old(config).specific_windows@,
            title@,
            exe@,
        ),
        is_rule_for(final(config).specific_windows@.last(), title@, exe@, op),
{
    remove_rules_for(config, title, exe);
    let rule = WindowConfig {
        title: Some(String::from_str(title)),
        executable: Some(String::from_str(exe)),
        opacity: op,
    };
    config.specific_windows.push(rule);
}

/// An upsert hands back well-formed rules when it was given
/// well-formed rules and a percentage.
pub proof fn lemma_upsert_preserves_wf(
    pre_rules: Seq<WindowConfig>,
    title: Seq<char>,
    exe: Seq<char>,
    op: u8,
    post_rules: Seq<WindowConfig>,
)
    requires
        forall|i: int| 0 <= i < pre_rules.len() ==> rule_wf(pre_rules[i]),
        op <= 100,
        post_rules.len() == remove_keyed(pre_rules, title, exe).len() + 1,
        post_rules.drop_last() == remove_keyed(pre_rules, title, exe),
        is_rule_for(post_rules.last(), title, exe, op),
    ensures
        forall|i: int| 0 <= i < post_rules.len() ==> rule_wf(post_rules[i]),
{
    lemma_remove_keyed_preserves_wf(pre_rules, title, exe);
    assert forall|i: int| 0 <= i < post_rules.len() implies rule_wf(post_rules[i]) by {
        if i < post_rules.len() - 1 {
            assert(post_rules[i] == post_rules.drop_last()[i]);
        } else {
            assert(post_rules[i] == post_rules.last());
        }
    }
}

/// After the upsert exactly one rule is keyed to the window: the
/// appended one. Every other surviving rule is keyed elsewhere.
pub proof fn lemma_upsert_exactly_one(
    rules: Seq<WindowConfig>,
    title: Seq<char>,
    exe: Seq<char>,
    op: u8,
    result: Seq<WindowConfig>,
)
    requires
        result.len() == remove_keyed(rules, title, exe).len() + 1,
        result.drop_last() == remove_keyed(rules, title, exe),
        is_rule_for(result.last(), title, exe, op),
    ensures
        rule_keyed_to(result.last(), title, exe),
        forall|i: int| 0 <= i < result.len() - 1 ==> !rule_keyed_to(result[i], title, exe),
{
    lemma_remove_keyed_removes_all(rules, title, exe);
    assert(forall|i: int| 0 <= i < result.len() - 1 ==> result[i] == result.drop_last()[i]);
}

} // verus!
