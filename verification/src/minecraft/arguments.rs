//! Placeholder substitution and the expansion of launch arguments.
use crate::minecraft::rules::{evaluate, rules_allow, HostPlatform, RuleFeatures};
use crate::minecraft::version::{payload_strings, ArgumentValue};
use crate::text::{concat2, from_chars, lit, replace_all, replace_exec, to_chars, views};
use vstd::prelude::*;

verus! {

#[derive(Debug, Clone)]
pub struct LaunchSubstitutions {
    pub auth_player_name: String,
    pub version_name: String,
    pub game_directory: String,
    pub assets_root: String,
    pub assets_index_name: String,
    pub auth_uuid: String,
    pub auth_uuid_undashed: String,
    pub auth_access_token: String,
    pub user_type: String,
    pub version_type: String,
    pub natives_directory: String,
    pub launcher_name: String,
    pub launcher_version: String,
    pub classpath: String,
    pub classpath_separator: String,
    pub primary_jar: String,
    pub resolution_width: Option<String>,
    pub resolution_height: Option<String>,
    pub quick_play_path: Option<String>,
    pub quick_play_singleplayer: Option<String>,
    pub quick_play_multiplayer: Option<String>,
    pub quick_play_realms: Option<String>,
}

// ---------------------------------------------------------------------------
// Specification
// ---------------------------------------------------------------------------

pub type Entries = Seq<(Seq<char>, Seq<char>)>;

/// The views of a list of key/value string pairs.
pub open spec fn entries_view(v: Seq<(String, String)>) -> Entries {
    v.map_values(|e: (String, String)| (e.0@, e.1@))
}

/// The placeholder names and the values they stand for.
pub open spec fn substitution_entries(s: LaunchSubstitutions) -> Entries {
    let fixed = seq![
        ("auth_player_name"@, s.auth_player_name@),
        ("version_name"@, s.version_name@),
        ("game_directory"@, s.game_directory@),
        ("assets_root"@, s.assets_root@),
        ("assets_index_name"@, s.assets_index_name@),
        ("auth_uuid"@, s.auth_uuid@),
        ("auth_access_token"@, s.auth_access_token@),
        ("user_type"@, s.user_type@),
        ("version_type"@, s.version_type@),
        ("natives_directory"@, s.natives_directory@),
        ("launcher_name"@, s.launcher_name@),
        ("launcher_version"@, s.launcher_version@),
        ("classpath"@, s.classpath@),
        ("classpath_separator"@, s.classpath_separator@),
        ("primary_jar"@, s.primary_jar@),
        ("auth_uuid_undashed"@, s.auth_uuid_undashed@),
    ];
    let with_w = match s.resolution_width {
        Some(w) => fixed.push(("resolution_width"@, w@)),
        None => fixed,
    };
    match s.resolution_height {
        Some(h) => with_w.push(("resolution_height"@, h@)),
        None => with_w,
    }
}

/// `${name}`.
pub open spec fn placeholder(name: Seq<char>) -> Seq<char> {
    "${"@ + name + "}"@
}

/// Every `${key}` replaced by its value, one entry after the other.
pub open spec fn substitute_all(template: Seq<char>, entries: Entries) -> Seq<char>
    decreases entries.len(),
{
    if entries.len() == 0 {
        template
    } else {
        replace_all(
            substitute_all(template, entries.drop_last()),
            placeholder(entries.last().0),
            entries.last().1,
        )
    }
}

/// The strings an argument contributes: a plain one always, a ruled one
/// only when its rules allow.
pub open spec fn argument_strings(a: ArgumentValue, f: RuleFeatures, host: HostPlatform) -> Seq<String> {
    match a {
        ArgumentValue::Plain(s) => seq![s],
        ArgumentValue::Ruled { rules, value } => if rules_allow(Some(rules@), f, host) {
            payload_strings(value)
        } else {
            seq![]
        },
    }
}

/// All arguments expanded and substituted, in order.
pub open spec fn expanded_args(
    args: Seq<ArgumentValue>,
    f: RuleFeatures,
    host: HostPlatform,
    entries: Entries,
) -> Seq<Seq<char>>
    decreases args.len(),
{
    if args.len() == 0 {
        seq![]
    } else {
        expanded_args(args.drop_last(), f, host, entries) + argument_strings(
            args.last(),
            f,
            host,
        ).map_values(|s: String| substitute_all(s@, entries))
    }
}

/// Expanding two lists of arguments one after the other expands each.
pub proof fn lemma_expanded_concat(a: Seq<ArgumentValue>, b: Seq<ArgumentValue>, f: RuleFeatures, host: HostPlatform, entries: Entries)
    ensures
        expanded_args(a + b, f, host, entries) == expanded_args(a, f, host, entries) + expanded_args(b, f, host, entries),
    decreases b.len(),
{
    if b.len() == 0 {
        assert(a + b =~= a);
        assert(expanded_args(a, f, host, entries) + expanded_args(b, f, host, entries) =~= expanded_args(a, f, host, entries));
    } else {
        assert((a + b).drop_last() =~= a + b.drop_last());
        assert((a + b).last() == b.last());
        lemma_expanded_concat(a, b.drop_last(), f, host, entries);
        let s = argument_strings(b.last(), f, host).map_values(|s: String| substitute_all(s@, entries));
        assert(expanded_args(a, f, host, entries) + expanded_args(b.drop_last(), f, host, entries) + s
            =~= expanded_args(a, f, host, entries) + (expanded_args(b.drop_last(), f, host, entries) + s));
    }
}

/// The expansion of a list holds, in one block, the expansion of each of
/// its arguments: the block of argument `k` starts where the expansion of
/// the arguments before it ends.
pub proof fn lemma_expanded_holds_block(args: Seq<ArgumentValue>, k: int, f: RuleFeatures, host: HostPlatform, entries: Entries)
    requires
        0 <= k < args.len(),
    ensures
        ({
            let before = expanded_args(args.take(k), f, host, entries);
            let block = argument_strings(args[k], f, host).map_values(|s: String| substitute_all(s@, entries));
            let all = expanded_args(args, f, host, entries);
            &&& before.len() + block.len() <= all.len()
            &&& forall|p: int| 0 <= p < block.len() ==> #[trigger] all[before.len() + p] == block[p]
        }),
{
    assert(args =~= args.take(k + 1) + args.skip(k + 1));
    lemma_expanded_concat(args.take(k + 1), args.skip(k + 1), f, host, entries);
    assert(args.take(k + 1).drop_last() =~= args.take(k));
    assert(args.take(k + 1).last() == args[k]);
}

/// Splitting a command line at unquoted spaces and tabs, from a state:
/// the pieces so far, the current piece and whether a quote is open.
pub open spec fn shell_split_from(
    rest: Seq<char>,
    out: Seq<Seq<char>>,
    cur: Seq<char>,
    quoted: bool,
) -> Seq<Seq<char>>
    decreases rest.len(),
{
    if rest.len() == 0 {
        if cur.len() > 0 {
            out.push(cur)
        } else {
            out
        }
    } else {
        let c = rest[0];
        if c == '"' {
            shell_split_from(rest.drop_first(), out, cur, !quoted)
        } else if (c == ' ' || c == '\t') && !quoted {
            if cur.len() > 0 {
                shell_split_from(rest.drop_first(), out.push(cur), seq![], quoted)
            } else {
                shell_split_from(rest.drop_first(), out, cur, quoted)
            }
        } else if c == '\\' && quoted {
            if rest.len() > 1 {
                shell_split_from(rest.skip(2), out, cur.push(rest[1]), quoted)
            } else {
                shell_split_from(rest.drop_first(), out, cur, quoted)
            }
        } else {
            shell_split_from(rest.drop_first(), out, cur.push(c), quoted)
        }
    }
}

/// A command line split into words: double quotes group, a backslash
/// inside quotes takes the next character literally.
pub open spec fn shell_split(s: Seq<char>) -> Seq<Seq<char>> {
    shell_split_from(s, seq![], seq![], false)
}

// ---------------------------------------------------------------------------
// Implementation
// ---------------------------------------------------------------------------

fn entry(k: &str, v: &String) -> (r: (String, String))
    ensures
        r.0@ == k@,
        r.1@ == v@,
{
    (k.to_owned(), v.clone())
}

impl LaunchSubstitutions {
    /// The placeholder names and their values, in a fixed order, the
    /// resolution only where it is set.
    pub fn as_map(&self) -> (m: Vec<(String, String)>)
        ensures
            entries_view(m@) == substitution_entries(*self),
    {
        let mut m: Vec<(String, String)> = Vec::new();
        m.push(entry("auth_player_name", &self.auth_player_name));
        m.push(entry("version_name", &self.version_name));
        m.push(entry("game_directory", &self.game_directory));
        m.push(entry("assets_root", &self.assets_root));
        m.push(entry("assets_index_name", &self.assets_index_name));
        m.push(entry("auth_uuid", &self.auth_uuid));
        m.push(entry("auth_access_token", &self.auth_access_token));
        m.push(entry("user_type", &self.user_type));
        m.push(entry("version_type", &self.version_type));
        m.push(entry("natives_directory", &self.natives_directory));
        m.push(entry("launcher_name", &self.launcher_name));
        m.push(entry("launcher_version", &self.launcher_version));
        m.push(entry("classpath", &self.classpath));
        m.push(entry("classpath_separator", &self.classpath_separator));
        m.push(entry("primary_jar", &self.primary_jar));
        m.push(entry("auth_uuid_undashed", &self.auth_uuid_undashed));
        if let Some(v) = &self.resolution_width {
            m.push(entry("resolution_width", v));
        }
        if let Some(v) = &self.resolution_height {
            m.push(entry("resolution_height", v));
        }
        assert(entries_view(m@) =~= substitution_entries(*self));
        m
    }
}

/// `template` with every `${key}` of `map` replaced, entry by entry.
pub fn substitute_chars(template: &[char], map: &[(String, String)]) -> (r: Vec<char>)
    ensures
        r@ == substitute_all(template@, entries_view(map@)),
{
    let mut out = crate::text::copy_chars(template);
    let mut i: usize = 0;
    assert(entries_view(map@).take(0) =~= Seq::<(Seq<char>, Seq<char>)>::empty());
    while i < map.len()
        invariant
            i <= map.len(),
            out@ == substitute_all(template@, entries_view(map@).take(i as int)),
        decreases map.len() - i,
    {
        let (k, v) = &map[i];
        let open = lit("${");
        let key = to_chars(k.as_str());
        let close = lit("}");
        let p1 = concat2(&open, &key);
        let pat = concat2(&p1, &close);
        let val = to_chars(v.as_str());
        out = replace_exec(&out, &pat, &val);
        proof {
            let e = entries_view(map@);
            assert(e.take(i + 1).drop_last() =~= e.take(i as int));
            assert(e.take(i + 1).last() == e[i as int]);
        }
        i += 1;
    }
    assert(entries_view(map@).take(map.len() as int) =~= entries_view(map@));
    out
}

/// `template` with every `${key}` of `map` replaced by its value.
pub fn substitute(template: &str, map: &[(String, String)]) -> (r: String)
    ensures
        r@ == substitute_all(template@, entries_view(map@)),
{
    let t = to_chars(template);
    let v = substitute_chars(&t, map);
    from_chars(&v)
}

/// The arguments, each substituted, ruled ones only where their rules allow.
pub fn expand_args(
    args: &[ArgumentValue],
    features: &RuleFeatures,
    host: &HostPlatform,
    map: &[(String, String)],
) -> (r: Vec<String>)
    ensures
        r.deep_view() == expanded_args(args@, *features, *host, entries_view(map@)),
{
    let mut out: Vec<String> = Vec::new();
    let mut i: usize = 0;
    let ghost e = entries_view(map@);
    assert(args@.take(0) =~= Seq::<ArgumentValue>::empty());
    assert(out.deep_view() =~= Seq::<Seq<char>>::empty());
    while i < args.len()
        invariant
            i <= args.len(),
            e == entries_view(map@),
            out.deep_view() == expanded_args(args@.take(i as int), *features, *host, e),
        decreases args.len() - i,
    {
        let ghost before = out.deep_view();
        let ghost strs = argument_strings(args@[i as int], *features, *host).map_values(
            |s: String| substitute_all(s@, e),
        );
        proof {
            let t = args@.take(i + 1);
            assert(t.drop_last() =~= args@.take(i as int));
            assert(t.last() == args@[i as int]);
        }
        match &args[i] {
            ArgumentValue::Plain(s) => {
                let v = substitute(s.as_str(), map);
                out.push(v);
                assert(out.deep_view() =~= before + strs);
            },
            ArgumentValue::Ruled { rules, value } => {
                if evaluate(Some(rules.as_slice()), features, host) {
                    let vals = value.as_vec();
                    let mut j: usize = 0;
                    while j < vals.len()
                        invariant
                            j <= vals.len(),
                            vals@.len() == strs.len(),
                            forall|q: int| 0 <= q < vals@.len() ==> vals@[q]@ == (#[trigger] payload_strings(*value)[q])@,
                            strs == payload_strings(*value).map_values(|s: String| substitute_all(s@, e)),
                            e == entries_view(map@),
                            out.deep_view() == before + strs.take(j as int),
                        decreases vals.len() - j,
                    {
                        let s = substitute(vals[j].as_str(), map);
                        let ghost ob = out.deep_view();
                        out.push(s);
                        assert(out.deep_view() =~= ob.push(s@));
                        assert(strs.take(j + 1) =~= strs.take(j as int).push(strs[j as int]));
                        j += 1;
                    }
                    assert(strs.take(vals.len() as int) =~= strs);
                } else {
                    assert(strs =~= Seq::<Seq<char>>::empty());
                    assert(out.deep_view() =~= before + strs);
                }
            },
        }
        i += 1;
    }
    assert(args@.take(args.len() as int) =~= args@);
    out
}

/// The words of a command line.
pub fn shell_split_exec(s: &[char]) -> (r: Vec<String>)
    ensures
        r.deep_view() == shell_split(s@),
{
    let mut out: Vec<String> = Vec::new();
    let mut cur: Vec<char> = Vec::new();
    let mut quoted = false;
    let mut i: usize = 0;
    assert(s@.skip(0) =~= s@);
    assert(out.deep_view() =~= Seq::<Seq<char>>::empty());
    while i < s.len()
        invariant
            i <= s.len(),
            shell_split(s@) == shell_split_from(s@.skip(i as int), out.deep_view(), cur@, quoted),
        decreases s.len() - i,
    {
        let c = s[i];
        let ghost rest = s@.skip(i as int);
        assert(rest[0] == c);
        assert(rest.drop_first() =~= s@.skip(i + 1));
        if c == '"' {
            quoted = !quoted;
            i += 1;
        } else if (c == ' ' || c == '\t') && !quoted {
            if cur.len() > 0 {
                let word = from_chars(&cur);
                let ghost ob = out.deep_view();
                out.push(word);
                assert(out.deep_view() =~= ob.push(cur@));
                cur = Vec::new();
            }
            i += 1;
        } else if c == '\\' && quoted {
            if i + 1 < s.len() {
                cur.push(s[i + 1]);
                assert(rest.skip(2) =~= s@.skip(i + 2));
                assert(rest[1] == s@[i + 1]);
                i += 2;
            } else {
                i += 1;
            }
        } else {
            cur.push(c);
            i += 1;
        }
    }
    assert(s@.skip(i as int) =~= Seq::<char>::empty());
    if cur.len() > 0 {
        let word = from_chars(&cur);
        let ghost ob = out.deep_view();
        out.push(word);
        assert(out.deep_view() =~= ob.push(cur@));
    }
    out
}

/// The legacy argument string, substituted, then split into words.
pub fn expand_legacy_args(template: &str, map: &[(String, String)]) -> (r: Vec<String>)
    ensures
        r.deep_view() == shell_split(substitute_all(template@, entries_view(map@))),
{
    let t = to_chars(template);
    let substituted = substitute_chars(&t, map);
    shell_split_exec(&substituted)
}

/// User-supplied arguments split into words.
pub fn split_user_args(s: &str) -> (r: Vec<String>)
    ensures
        r.deep_view() == shell_split(s@),
{
    let v = to_chars(s);
    shell_split_exec(&v)
}

} // verus!
