//! Mojang's allow/disallow rules for libraries and arguments.
use crate::text::{
    contains, contains_exec, copy_chars, eq_exec, eq_str, has_prefix, lit, replace_all,
    replace_exec, slice_chars, starts_with, str_starts_with, to_chars, trim_end_matches,
    trim_end_matches_exec,
};
use vstd::prelude::*;

verus! {

#[derive(Debug, Clone, Copy, PartialEq, Eq, Structural)]
pub enum RuleAction {
    Allow,
    Disallow,
}

#[derive(Debug, Clone, Default)]
pub struct OsRule {
    pub name: Option<String>,
    pub version: Option<String>,
    pub arch: Option<String>,
}

/// One rule. `features` holds the JSON object's entries, each key once.
#[derive(Debug, Clone)]
pub struct Rule {
    pub action: RuleAction,
    pub os: Option<OsRule>,
    pub features: Option<Vec<(String, bool)>>,
}

#[derive(Debug, Clone, Copy, Default)]
pub struct RuleFeatures {
    pub is_demo_user: bool,
    pub has_custom_resolution: bool,
    pub has_quick_plays_support: bool,
    pub is_quick_play_singleplayer: bool,
    pub is_quick_play_multiplayer: bool,
    pub is_quick_play_realms: bool,
    pub has_content: bool,
}

/// What the rules are matched against: Mojang's name for the running OS
/// and architecture, the OS family name and the OS version string.
#[derive(Debug, Clone)]
pub struct HostPlatform {
    pub os: String,
    pub arch: String,
    pub family: String,
    pub os_version: String,
}

// ---------------------------------------------------------------------------
// Specification
// ---------------------------------------------------------------------------

/// `x86_64` and `amd64` both name `x64`.
pub open spec fn norm_arch(a: Seq<char>) -> Seq<char> {
    if a == "x86_64"@ || a == "amd64"@ {
        "x64"@
    } else {
        a
    }
}

/// The version pattern with its regex escapes undone and its anchors and
/// wildcard tail removed.
pub open spec fn clean_version_pattern(body: Seq<char>) -> Seq<char> {
    let unescaped = replace_all(replace_all(body, "\\."@, "."@), "\\\\"@, "\\"@);
    trim_end_matches(trim_end_matches(trim_end_matches(unescaped, "$"@), ".*"@), "."@)
}

pub open spec fn os_version_matches(pattern: Seq<char>, host: HostPlatform) -> bool {
    if has_prefix(pattern, "^"@) {
        let clean = clean_version_pattern(pattern.drop_first());
        clean.len() == 0 || has_prefix(host.os_version@, clean) || has_prefix(host.family@, clean)
    } else {
        contains(host.os_version@, pattern) || contains(host.family@, pattern)
    }
}

pub open spec fn os_matches(rule: Rule, host: HostPlatform) -> bool {
    match rule.os {
        None => true,
        Some(os) => {
            &&& (os.name matches Some(n) ==> n@ == host.os@)
            &&& (os.arch matches Some(a) ==> (a@ == host.arch@ || norm_arch(a@) == norm_arch(host.arch@)))
            &&& (os.version matches Some(v) ==> os_version_matches(v@, host))
        },
    }
}

/// The value of the named feature, if the name is one the launcher knows.
pub open spec fn feature_value(f: RuleFeatures, name: Seq<char>) -> Option<bool> {
    if name == "is_demo_user"@ {
        Some(f.is_demo_user)
    } else if name == "has_custom_resolution"@ {
        Some(f.has_custom_resolution)
    } else if name == "has_quick_plays_support"@ {
        Some(f.has_quick_plays_support)
    } else if name == "is_quick_play_singleplayer"@ {
        Some(f.is_quick_play_singleplayer)
    } else if name == "is_quick_play_multiplayer"@ {
        Some(f.is_quick_play_multiplayer)
    } else if name == "is_quick_play_realms"@ {
        Some(f.is_quick_play_realms)
    } else if name == "has_content"@ {
        Some(f.has_content)
    } else {
        None
    }
}

/// Every known feature the rule names has the required value; unknown
/// names are ignored.
pub open spec fn features_match(rule: Rule, f: RuleFeatures) -> bool {
    match rule.features {
        None => true,
        Some(m) => forall|i: int|
            0 <= i < m@.len() ==> #[trigger] feature_value(f, m@[i].0@) != Some(!m@[i].1),
    }
}

pub open spec fn rule_applies(rule: Rule, f: RuleFeatures, host: HostPlatform) -> bool {
    os_matches(rule, host) && features_match(rule, f)
}

/// The action of the last applicable rule is `Allow`; false when no rule
/// applies.
pub open spec fn last_applicable_allows(rules: Seq<Rule>, f: RuleFeatures, host: HostPlatform) -> bool
    decreases rules.len(),
{
    if rules.len() == 0 {
        false
    } else if rule_applies(rules.last(), f, host) {
        rules.last().action == RuleAction::Allow
    } else {
        last_applicable_allows(rules.drop_last(), f, host)
    }
}

/// No rules, or an empty list, allow; otherwise the last applicable rule
/// decides.
pub open spec fn rules_allow(rules: Option<Seq<Rule>>, f: RuleFeatures, host: HostPlatform) -> bool {
    match rules {
        None => true,
        Some(rs) => rs.len() == 0 || last_applicable_allows(rs, f, host),
    }
}

// ---------------------------------------------------------------------------
// Implementation
// ---------------------------------------------------------------------------

fn norm_arch_exec(a: &[char]) -> (r: Vec<char>)
    ensures
        r@ == norm_arch(a@),
{
    if eq_str(a, "x86_64") || eq_str(a, "amd64") {
        lit("x64")
    } else {
        copy_chars(a)
    }
}

fn os_version_matches_exec(pattern: &[char], host: &HostPlatform) -> (r: bool)
    ensures
        r == os_version_matches(pattern@, *host),
{
    let os_version = to_chars(host.os_version.as_str());
    let family = to_chars(host.family.as_str());
    if str_starts_with(pattern, "^") {
        proof {
            reveal_strlit("^");
        }
        let body = slice_chars(pattern, 1, pattern.len());
        assert(body@ =~= pattern@.drop_first());
        let a = replace_exec(&body, &lit("\\."), &lit("."));
        let b = replace_exec(&a, &lit("\\\\"), &lit("\\"));
        let c = trim_end_matches_exec(&b, &lit("$"));
        let d = trim_end_matches_exec(&c, &lit(".*"));
        let clean = trim_end_matches_exec(&d, &lit("."));
        if clean.len() == 0 {
            return true;
        }
        starts_with(&os_version, &clean) || starts_with(&family, &clean)
    } else {
        contains_exec(&os_version, pattern) || contains_exec(&family, pattern)
    }
}

impl Rule {
    fn os_matches(&self, host: &HostPlatform) -> (r: bool)
        ensures
            r == os_matches(*self, *host),
    {
        let os = match &self.os {
            None => return true,
            Some(os) => os,
        };
        if let Some(name) = &os.name {
            let n = to_chars(name.as_str());
            let current = to_chars(host.os.as_str());
            if !eq_exec(&n, &current) {
                return false;
            }
        }
        if let Some(arch) = &os.arch {
            let a = to_chars(arch.as_str());
            let current = to_chars(host.arch.as_str());
            if !eq_exec(&a, &current) {
                let na = norm_arch_exec(&a);
                let nc = norm_arch_exec(&current);
                if !eq_exec(&na, &nc) {
                    return false;
                }
            }
        }
        if let Some(pattern) = &os.version {
            let p = to_chars(pattern.as_str());
            if !os_version_matches_exec(&p, host) {
                return false;
            }
        }
        true
    }

    fn features_match(&self, features: &RuleFeatures) -> (r: bool)
        ensures
            r == features_match(*self, *features),
    {
        let map = match &self.features {
            None => return true,
            Some(m) => m,
        };
        let mut i: usize = 0;
        while i < map.len()
            invariant
                self.features == Some(*map),
                i <= map.len(),
                forall|j: int|
                    0 <= j < i ==> #[trigger] feature_value(*features, map@[j].0@) != Some(
                        !map@[j].1,
                    ),
            decreases map.len() - i,
        {
            let (k, v) = &map[i];
            let key = to_chars(k.as_str());
            let actual = feature_value_exec(features, &key);
            if let Some(a) = actual {
                if a != *v {
                    return false;
                }
            }
            i += 1;
        }
        true
    }
}

fn feature_value_exec(f: &RuleFeatures, name: &[char]) -> (r: Option<bool>)
    ensures
        r == feature_value(*f, name@),
{
    if eq_str(name, "is_demo_user") {
        Some(f.is_demo_user)
    } else if eq_str(name, "has_custom_resolution") {
        Some(f.has_custom_resolution)
    } else if eq_str(name, "has_quick_plays_support") {
        Some(f.has_quick_plays_support)
    } else if eq_str(name, "is_quick_play_singleplayer") {
        Some(f.is_quick_play_singleplayer)
    } else if eq_str(name, "is_quick_play_multiplayer") {
        Some(f.is_quick_play_multiplayer)
    } else if eq_str(name, "is_quick_play_realms") {
        Some(f.is_quick_play_realms)
    } else if eq_str(name, "has_content") {
        Some(f.has_content)
    } else {
        None
    }
}

/// Whether a list of rules allows something on `host` with `features`.
pub fn evaluate(rules: Option<&[Rule]>, features: &RuleFeatures, host: &HostPlatform) -> (r: bool)
    ensures
        r == rules_allow(
            match rules {
                None => None,
                Some(rs) => Some(rs@),
            },
            *features,
            *host,
        ),
{
    let rules = match rules {
        None => return true,
        Some(rs) => rs,
    };
    if rules.len() == 0 {
        return true;
    }
    let mut allowed = false;
    let mut i: usize = 0;
    while i < rules.len()
        invariant
            i <= rules.len(),
            allowed == last_applicable_allows(rules@.take(i as int), *features, *host),
        decreases rules.len() - i,
    {
        let rule = &rules[i];
        proof {
            assert(rules@.take(i + 1).drop_last() =~= rules@.take(i as int));
            assert(rules@.take(i + 1).last() == rules@[i as int]);
        }
        if rule.os_matches(host) && rule.features_match(features) {
            allowed = match rule.action {
                RuleAction::Allow => true,
                RuleAction::Disallow => false,
            };
        }
        i += 1;
    }
    assert(rules@.take(rules.len() as int) =~= rules@);
    allowed
}

/// A rule appended to a list decides alone when it applies, and changes
/// nothing when it does not (the list being non-empty).
pub proof fn law_last_applicable_rule_decides(rules: Seq<Rule>, r: Rule, f: RuleFeatures, host: HostPlatform)
    ensures
        rule_applies(r, f, host) ==> rules_allow(Some(rules.push(r)), f, host) == (r.action
            == RuleAction::Allow),
        !rule_applies(r, f, host) && rules.len() > 0 ==> rules_allow(Some(rules.push(r)), f, host)
            == rules_allow(Some(rules), f, host),
{
    assert(rules.push(r).drop_last() =~= rules);
}

/// A rule that names a known feature with a value the launch's features do
/// not have never applies, whatever its other conditions; so a list made of
/// one `allow` rule on a feature allows exactly when the feature has the
/// value the rule asks for (a rule asking for a demo user keeps `--demo` out
/// of every launch that is not a demo).
pub proof fn law_feature_rules_require_their_value(r: Rule, f: RuleFeatures, host: HostPlatform, i: int)
    requires
        r.features is Some,
        0 <= i < r.features->0@.len(),
    ensures
        ({
            let (name, wanted) = r.features->0@[i];
            &&& (name@ == "is_demo_user"@ && wanted != f.is_demo_user) ==> !rule_applies(r, f, host)
            &&& (name@ == "has_custom_resolution"@ && wanted != f.has_custom_resolution) ==> !rule_applies(r, f, host)
            &&& (name@ == "has_quick_plays_support"@ && wanted != f.has_quick_plays_support) ==> !rule_applies(r, f, host)
            &&& (name@ == "is_quick_play_singleplayer"@ && wanted != f.is_quick_play_singleplayer) ==> !rule_applies(r, f, host)
            &&& (name@ == "is_quick_play_multiplayer"@ && wanted != f.is_quick_play_multiplayer) ==> !rule_applies(r, f, host)
            &&& (name@ == "is_quick_play_realms"@ && wanted != f.is_quick_play_realms) ==> !rule_applies(r, f, host)
            &&& (name@ == "has_content"@ && wanted != f.has_content) ==> !rule_applies(r, f, host)
        }),
        (r.action == RuleAction::Allow && r.os is None && r.features->0@.len() == 1 && r.features->0@[0].0@
            == "is_demo_user"@) ==> rules_allow(Some(seq![r]), f, host) == (r.features->0@[0].1 == f.is_demo_user),
{
    reveal_strlit("is_demo_user");
    reveal_strlit("has_custom_resolution");
    reveal_strlit("has_quick_plays_support");
    reveal_strlit("is_quick_play_singleplayer");
    reveal_strlit("is_quick_play_multiplayer");
    reveal_strlit("is_quick_play_realms");
    reveal_strlit("has_content");
    let m = r.features->0;
    let name = m@[i].0@;
    let wanted = m@[i].1;
    assert("is_demo_user"@.len() == 12);
    assert("has_custom_resolution"@.len() == 21);
    assert("has_quick_plays_support"@.len() == 23);
    assert("is_quick_play_singleplayer"@.len() == 26);
    assert("is_quick_play_multiplayer"@.len() == 25);
    assert("is_quick_play_realms"@.len() == 20);
    assert("has_content"@.len() == 11);
    let v = feature_value(f, name);
    if v == Some(!wanted) {
        assert(!features_match(r, f));
    }
    let s = seq![r];
    assert(s.drop_last() =~= Seq::<Rule>::empty());
    assert(s.last() == r);
    assert(!last_applicable_allows(Seq::<Rule>::empty(), f, host));
    if r.features->0@.len() == 1 && m@[0].0@ == "is_demo_user"@ && r.action == RuleAction::Allow && r.os is None {
        assert(os_matches(r, host));
        assert(last_applicable_allows(s, f, host) == features_match(r, f));
        let v0 = feature_value(f, m@[0].0@);
        assert(v0 == Some(f.is_demo_user));
        if m@[0].1 == f.is_demo_user {
            assert forall|j: int| 0 <= j < m@.len() implies #[trigger] feature_value(f, m@[j].0@) != Some(!m@[j].1) by {
                assert(j == 0);
            }
            assert(features_match(r, f));
        } else {
            assert(!features_match(r, f));
        }
    }
}

} // verus!
