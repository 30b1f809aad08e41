//! Where an instance's files live, and how a mod is switched on or off.
use crate::content::store::{lowercase_of, to_lowercase};
use crate::error::MonoryxError;
use crate::instance::config::InstanceConfig;
use crate::loaders::order::{lemma_order_text_flip, lemma_order_text_trans, order_text, order_text_exec};
use crate::storage::paths::{join, join_path, MonoryxPaths};
use crate::text::{
    concat2, contains, from_chars, lit, str_contains, to_chars, trim, trim_end_matches, trim_end_matches_exec,
    trim_exec,
};
use vstd::prelude::*;

verus! {

/// The directories every game directory has.
pub fn game_subdirs() -> (r: Vec<&'static str>)
    ensures
        r@.len() == 9,
        r@[0]@ == "saves"@,
        r@[1]@ == "mods"@,
        r@[2]@ == ".monoryx-disabled"@,
        r@[3]@ == "config"@,
        r@[4]@ == "resourcepacks"@,
        r@[5]@ == "shaderpacks"@,
        r@[6]@ == "screenshots"@,
        r@[7]@ == "logs"@,
        r@[8]@ == "crash-reports"@,
{
    let mut v: Vec<&'static str> = Vec::new();
    v.push("saves");
    v.push("mods");
    v.push(".monoryx-disabled");
    v.push("config");
    v.push("resourcepacks");
    v.push("shaderpacks");
    v.push("screenshots");
    v.push("logs");
    v.push("crash-reports");
    v
}

#[derive(Debug, Clone)]
pub struct InstanceManager {
    paths: MonoryxPaths,
}

/// Whether each place a mod's file may be in exists: enabled in the mods
/// directory, disabled in the disabled directory, or disabled in place
/// (`<name>.disabled` in the mods directory).
#[derive(Debug, Clone, Copy)]
pub struct ModFilePresence {
    pub enabled: bool,
    pub disabled: bool,
    pub disabled_in_place: bool,
}

/// The places a mod's file may be in: enabled, disabled, disabled in place.
pub struct ModFilePlaces {
    pub enabled: String,
    pub disabled: String,
    pub disabled_in_place: String,
}

/// What switching a mod does: an optional move from one path to another,
/// and the path the file is at afterwards.
pub struct ModToggle {
    pub rename: Option<(String, String)>,
    pub path: String,
}

/// A mod file name that holds a path separator.
pub open spec fn bad_mod_file_name(name: Seq<char>) -> bool {
    contains(name, "/"@) || contains(name, "\\"@)
}

impl InstanceManager {
    pub closed spec fn root_view(&self) -> Seq<char> {
        self.paths.root_view()
    }

    pub fn new(paths: MonoryxPaths) -> (r: Self)
        ensures
            r.root_view() == paths.root_view(),
    {
        InstanceManager { paths }
    }

    pub fn paths(&self) -> (r: &MonoryxPaths)
        ensures
            r.root_view() == self.root_view(),
    {
        &self.paths
    }

    pub open spec fn instance_dir_spec(&self, id: Seq<char>) -> Seq<char> {
        join_path(join_path(self.root_view(), "instances"@), id)
    }

    pub open spec fn game_dir_spec(&self, id: Seq<char>) -> Seq<char> {
        join_path(self.instance_dir_spec(id), "game"@)
    }

    pub fn instance_dir(&self, id: &str) -> (r: String)
        ensures
            r@ == self.instance_dir_spec(id@),
    {
        self.paths.instance_dir(id)
    }

    pub fn config_path(&self, id: &str) -> (r: String)
        ensures
            r@ == join_path(self.instance_dir_spec(id@), "instance.toml"@),
    {
        join(self.instance_dir(id).as_str(), "instance.toml")
    }

    pub fn game_dir(&self, id: &str) -> (r: String)
        ensures
            r@ == self.game_dir_spec(id@),
    {
        join(self.instance_dir(id).as_str(), "game")
    }

    pub fn mods_dir(&self, id: &str) -> (r: String)
        ensures
            r@ == join_path(self.game_dir_spec(id@), "mods"@),
    {
        join(self.game_dir(id).as_str(), "mods")
    }

    pub fn disabled_dir(&self, id: &str) -> (r: String)
        ensures
            r@ == join_path(self.game_dir_spec(id@), ".monoryx-disabled"@),
    {
        join(self.game_dir(id).as_str(), ".monoryx-disabled")
    }

    pub fn resourcepacks_dir(&self, id: &str) -> (r: String)
        ensures
            r@ == join_path(self.game_dir_spec(id@), "resourcepacks"@),
    {
        join(self.game_dir(id).as_str(), "resourcepacks")
    }

    pub fn shaderpacks_dir(&self, id: &str) -> (r: String)
        ensures
            r@ == join_path(self.game_dir_spec(id@), "shaderpacks"@),
    {
        join(self.game_dir(id).as_str(), "shaderpacks")
    }

    /// The places a mod's file may be in, its name taken without any
    /// `.disabled` suffix.
    pub fn mod_file_places(&self, id: &str, file_name: &str) -> (r: ModFilePlaces)
        ensures
            r.enabled@ == join_path(
                join_path(self.game_dir_spec(id@), "mods"@),
                trim_end_matches(file_name@, ".disabled"@),
            ),
            r.disabled@ == join_path(
                join_path(self.game_dir_spec(id@), ".monoryx-disabled"@),
                trim_end_matches(file_name@, ".disabled"@) + ".disabled"@,
            ),
            r.disabled_in_place@ == join_path(
                join_path(self.game_dir_spec(id@), "mods"@),
                trim_end_matches(file_name@, ".disabled"@) + ".disabled"@,
            ),
    {
        let mods = self.mods_dir(id);
        let disabled = self.disabled_dir(id);
        let base = trim_end_matches_exec(&to_chars(file_name), &lit(".disabled"));
        let off = from_chars(&concat2(&base, &lit(".disabled")));
        ModFilePlaces {
            enabled: join(mods.as_str(), from_chars(&base).as_str()),
            disabled: join(disabled.as_str(), off.as_str()),
            disabled_in_place: join(mods.as_str(), off.as_str()),
        }
    }

    /// Switching a mod on moves its disabled file (from the disabled
    /// directory, else in place) back into the mods directory; switching
    /// it off moves the enabled file (or the one disabled in place) into
    /// the disabled directory. A file already where it belongs stays.
    /// `Instance` errors come for a name with a path separator and for a
    /// mod found nowhere.
    pub fn set_mod_enabled(&self, id: &str, file_name: &str, enabled: bool, present: ModFilePresence) -> (r: Result<
        ModToggle,
        MonoryxError,
    >)
        ensures
            bad_mod_file_name(file_name@) ==> (r matches Err(MonoryxError::Instance(m)) && m@ == "invalid mod file name"@),
            !bad_mod_file_name(file_name@) ==> ({
                let places = (
                    join_path(join_path(self.game_dir_spec(id@), "mods"@), trim_end_matches(file_name@, ".disabled"@)),
                    join_path(
                        join_path(self.game_dir_spec(id@), ".monoryx-disabled"@),
                        trim_end_matches(file_name@, ".disabled"@) + ".disabled"@,
                    ),
                    join_path(
                        join_path(self.game_dir_spec(id@), "mods"@),
                        trim_end_matches(file_name@, ".disabled"@) + ".disabled"@,
                    ),
                );
                let (on, off, in_place) = places;
                if enabled {
                    if present.disabled {
                        r matches Ok(t) && t.rename matches Some(mv) && mv.0@ == off && mv.1@ == on && t.path@ == on
                    } else if present.disabled_in_place {
                        r matches Ok(t) && t.rename matches Some(mv) && mv.0@ == in_place && mv.1@ == on && t.path@ == on
                    } else if present.enabled {
                        r matches Ok(t) && t.rename is None && t.path@ == on
                    } else {
                        r matches Err(MonoryxError::Instance(m)) && m@ == "mod not found: "@ + file_name@
                    }
                } else {
                    if present.enabled {
                        r matches Ok(t) && t.rename matches Some(mv) && mv.0@ == on && mv.1@ == off && t.path@ == off
                    } else if present.disabled_in_place {
                        r matches Ok(t) && t.rename matches Some(mv) && mv.0@ == in_place && mv.1@ == off && t.path@ == off
                    } else if present.disabled {
                        r matches Ok(t) && t.rename is None && t.path@ == off
                    } else {
                        r matches Err(MonoryxError::Instance(m)) && m@ == "mod not found: "@ + file_name@
                    }
                }
            }),
    {
        let name = to_chars(file_name);
        if str_contains(&name, "/") || str_contains(&name, "\\") {
            return Err(MonoryxError::Instance(String::from_str("invalid mod file name")));
        }
        let p = self.mod_file_places(id, file_name);
        let not_found = concat2(&lit("mod not found: "), &name);
        if enabled {
            if present.disabled {
                return Ok(ModToggle { rename: Some((p.disabled, p.enabled.clone())), path: p.enabled });
            }
            if present.disabled_in_place {
                return Ok(ModToggle { rename: Some((p.disabled_in_place, p.enabled.clone())), path: p.enabled });
            }
            if present.enabled {
                return Ok(ModToggle { rename: None, path: p.enabled });
            }
            Err(MonoryxError::Instance(from_chars(&not_found)))
        } else {
            if present.enabled {
                return Ok(ModToggle { rename: Some((p.enabled, p.disabled.clone())), path: p.disabled });
            }
            if present.disabled_in_place {
                return Ok(ModToggle { rename: Some((p.disabled_in_place, p.disabled.clone())), path: p.disabled });
            }
            if present.disabled {
                return Ok(ModToggle { rename: None, path: p.disabled });
            }
            Err(MonoryxError::Instance(from_chars(&not_found)))
        }
    }
}

/// Whether a file in the mods directory counts as a mod: a `.jar` file.
pub fn is_mod_jar(file_name: &str) -> (r: bool)
    ensures
        r == (crate::storage::paths::extension_of(file_name@) == Some("jar"@)),
{
    crate::storage::paths::has_extension(file_name, "jar")
}

/// The key instances are listed by: the name in lower case.
pub open spec fn name_key(c: InstanceConfig) -> Seq<char> {
    lowercase_of(c.name@)
}

/// The first position at or after `i` whose key comes after `key`; the
/// length when there is none.
pub open spec fn first_after(s: Seq<InstanceConfig>, key: Seq<char>, i: int) -> int
    decreases s.len() - i,
{
    if i < 0 || i >= s.len() {
        s.len() as int
    } else if order_text(name_key(s[i]), key) == 1 {
        i
    } else {
        first_after(s, key, i + 1)
    }
}

/// Instances in order of their keys, instances of one key in the order
/// given: each is placed after every one whose key is not after its own.
pub open spec fn by_name(s: Seq<InstanceConfig>) -> Seq<InstanceConfig>
    decreases s.len(),
{
    if s.len() == 0 {
        Seq::empty()
    } else {
        let prev = by_name(s.drop_last());
        prev.insert(first_after(prev, name_key(s.last()), 0), s.last())
    }
}

proof fn lemma_first_after(s: Seq<InstanceConfig>, key: Seq<char>, i: int)
    requires
        0 <= i <= s.len(),
    ensures
        i <= first_after(s, key, i) <= s.len(),
        forall|k: int| i <= k < first_after(s, key, i) ==> order_text(name_key(#[trigger] s[k]), key) != 1,
        first_after(s, key, i) < s.len() ==> order_text(name_key(s[first_after(s, key, i)]), key) == 1,
    decreases s.len() - i,
{
    if i < s.len() {
        lemma_first_after(s, key, i + 1);
    }
}

/// Instances listed in ascending order of their names in lower case.
pub open spec fn names_ascending(s: Seq<InstanceConfig>) -> bool {
    forall|i: int, j: int| 0 <= i < j < s.len() ==> order_text(name_key(s[i]), name_key(s[j])) != 1
}

proof fn lemma_not_after_trans(a: Seq<char>, b: Seq<char>, c: Seq<char>)
    ensures
        order_text(a, b) != 1 && order_text(b, c) != 1 ==> order_text(a, c) != 1,
{
    lemma_order_text_flip(a, b);
    lemma_order_text_flip(b, c);
    lemma_order_text_flip(a, c);
    lemma_order_text_trans(c, b, a);
}

proof fn lemma_by_name_ascending(s: Seq<InstanceConfig>)
    ensures
        names_ascending(by_name(s)),
    decreases s.len(),
{
    if s.len() > 0 {
        lemma_by_name_ascending(s.drop_last());
        let prev = by_name(s.drop_last());
        let x = s.last();
        let kx = name_key(x);
        let p = first_after(prev, kx, 0);
        lemma_first_after(prev, kx, 0);
        let t = prev.insert(p, x);
        assert forall|i: int, j: int| 0 <= i < j < t.len() implies order_text(name_key(t[i]), name_key(t[j])) != 1 by {
            lemma_order_text_flip(name_key(t[i]), name_key(t[j]));
            if j < p {
                assert(t[i] == prev[i] && t[j] == prev[j]);
            } else if j == p {
                assert(t[i] == prev[i] && t[j] == x);
            } else if i < p {
                assert(t[i] == prev[i] && t[j] == prev[j - 1]);
                assert(order_text(name_key(prev[i]), kx) != 1);
                assert(order_text(name_key(prev[p]), kx) == 1);
                lemma_order_text_flip(name_key(prev[p]), kx);
                if p < j - 1 {
                    assert(order_text(name_key(prev[p]), name_key(prev[j - 1])) != 1);
                    lemma_not_after_trans(kx, name_key(prev[p]), name_key(prev[j - 1]));
                }
                lemma_not_after_trans(name_key(prev[i]), kx, name_key(prev[j - 1]));
            } else if i == p {
                assert(t[i] == x && t[j] == prev[j - 1]);
                assert(order_text(name_key(prev[p]), kx) == 1);
                lemma_order_text_flip(name_key(prev[p]), kx);
                if p < j - 1 {
                    assert(order_text(name_key(prev[p]), name_key(prev[j - 1])) != 1);
                    lemma_not_after_trans(kx, name_key(prev[p]), name_key(prev[j - 1]));
                }
            } else {
                assert(t[i] == prev[i - 1] && t[j] == prev[j - 1]);
            }
        }
    }
}

/// Listed instances are in ascending order of their names in lower case.
pub proof fn law_instances_listed_by_name(list: Seq<InstanceConfig>)
    ensures
        names_ascending(by_name(list)),
{
    lemma_by_name_ascending(list);
}

impl InstanceManager {
    /// An instance after one more launch at `now`.
    pub fn mark_played(&self, cfg: InstanceConfig, now: String) -> (r: InstanceConfig)
        requires
            cfg.total_plays < u64::MAX,
        ensures
            r == (InstanceConfig { last_played_at: Some(now), total_plays: (cfg.total_plays + 1) as u64, ..cfg }),
    {
        let mut c = cfg;
        c.last_played_at = Some(now);
        c.total_plays = c.total_plays + 1;
        c
    }

    /// An instance under a new name, without surrounding blanks.
    pub fn rename(&self, cfg: InstanceConfig, new_name: &str) -> (r: InstanceConfig)
        ensures
            r == (InstanceConfig { name: r.name, ..cfg }),
            r.name@ == trim(new_name@),
    {
        let mut c = cfg;
        c.name = from_chars(&trim_exec(&to_chars(new_name)));
        c
    }

    /// The copy of an instance: a new id and name (without surrounding
    /// blanks), created at `now`, never played.
    pub fn duplicate(&self, src: &InstanceConfig, new_id: String, new_name: &str, now: String) -> (r: InstanceConfig)
        ensures
            r.id == new_id,
            r.name@ == trim(new_name@),
            r.created_at == now,
            r.last_played_at is None,
            r.total_plays == 0,
            r.play_time_secs == 0,
            r.icon@ == src.icon@,
            r.minecraft_version@ == src.minecraft_version@,
            r.loader == src.loader,
            r.loader_version@ == src.loader_version@,
            r.resolved_version_id@ == src.resolved_version_id@,
            r.memory_min_mb == src.memory_min_mb,
            r.memory_max_mb == src.memory_max_mb,
            r.java_mode == src.java_mode,
            r.java_path@ == src.java_path@,
            r.jvm_args@ == src.jvm_args@,
            r.game_args@ == src.game_args@,
            r.width == src.width,
            r.height == src.height,
            r.fullscreen == src.fullscreen,
            r.boost_mode == src.boost_mode,
    {
        InstanceConfig {
            id: new_id,
            name: from_chars(&trim_exec(&to_chars(new_name))),
            icon: src.icon.clone(),
            minecraft_version: src.minecraft_version.clone(),
            loader: src.loader,
            loader_version: src.loader_version.clone(),
            resolved_version_id: src.resolved_version_id.clone(),
            memory_min_mb: src.memory_min_mb,
            memory_max_mb: src.memory_max_mb,
            java_mode: src.java_mode,
            java_path: src.java_path.clone(),
            jvm_args: src.jvm_args.clone(),
            game_args: src.game_args.clone(),
            width: src.width,
            height: src.height,
            fullscreen: src.fullscreen,
            created_at: now,
            last_played_at: None,
            total_plays: 0,
            play_time_secs: 0,
            boost_mode: src.boost_mode,
        }
    }

    /// The instances as listed, from the configurations that were read: in
    /// order of their names in lower case (see `by_name`).
    pub fn list(&self, loaded: Vec<InstanceConfig>) -> (r: Vec<InstanceConfig>)
        ensures
            r@ == by_name(loaded@),
    {
        let ghost orig = loaded@;
        let ghost n = orig.len();
        assert(n <= usize::MAX) by {
            assert(loaded@.len() == loaded.len());
        }
        let mut rev = crate::copy::reversed(loaded);
        let mut out: Vec<InstanceConfig> = Vec::new();
        let mut i: usize = 0;
        assert(orig.take(0) =~= Seq::<InstanceConfig>::empty());
        while rev.len() > 0
            invariant
                n == orig.len(),
                n <= usize::MAX,
                rev@.len() + i == n,
                forall|j: int| 0 <= j < rev@.len() ==> rev@[j] == orig[n - 1 - j],
                out@ == by_name(orig.take(i as int)),
            decreases rev@.len(),
        {
            let c = rev.pop().unwrap();
            assert(c == orig[i as int]);
            assert(orig.take(i + 1).drop_last() =~= orig.take(i as int));
            let key = to_chars(to_lowercase(c.name.as_str()).as_str());
            let mut p: usize = 0;
            while p < out.len() && order_text_exec(&to_chars(to_lowercase(out[p].name.as_str()).as_str()), &key) != 1
                invariant
                    p <= out@.len(),
                    key@ == name_key(c),
                    first_after(out@, name_key(c), 0) == first_after(out@, name_key(c), p as int),
                decreases out.len() - p,
            {
                p += 1;
            }
            out.insert(p, c);
            i += 1;
        }
        assert(orig.take(n as int) =~= orig);
        out
    }
}

} // verus!
