//! An instance's settings and its mod loader.
use crate::error::MonoryxError;
use crate::ids::{random_id, random_uuid_text};
use crate::text::{eq_ignore_ascii_case, eq_ignore_ascii_case_exec, from_chars, lit, to_chars, trim, trim_exec};
use vstd::prelude::*;

verus! {

#[derive(Debug, Clone, Copy, PartialEq, Eq, Structural)]
pub enum LoaderKind {
    Vanilla,
    Fabric,
    Quilt,
    Neoforge,
    Forge,
}

impl Default for LoaderKind {
    fn default() -> (r: Self)
        ensures
            r == LoaderKind::Vanilla,
    {
        LoaderKind::Vanilla
    }
}

/// The stored name of a loader.
pub open spec fn loader_name(k: LoaderKind) -> Seq<char> {
    match k {
        LoaderKind::Vanilla => "vanilla"@,
        LoaderKind::Fabric => "fabric"@,
        LoaderKind::Quilt => "quilt"@,
        LoaderKind::Neoforge => "neoforge"@,
        LoaderKind::Forge => "forge"@,
    }
}

/// The loader a name denotes, letters compared without regard to case;
/// `neo-forge` also names NeoForge, and anything unknown is vanilla.
pub open spec fn loader_named(s: Seq<char>) -> LoaderKind {
    if eq_ignore_ascii_case(s, "fabric"@) {
        LoaderKind::Fabric
    } else if eq_ignore_ascii_case(s, "quilt"@) {
        LoaderKind::Quilt
    } else if eq_ignore_ascii_case(s, "neoforge"@) || eq_ignore_ascii_case(s, "neo-forge"@) {
        LoaderKind::Neoforge
    } else if eq_ignore_ascii_case(s, "forge"@) {
        LoaderKind::Forge
    } else {
        LoaderKind::Vanilla
    }
}

impl LoaderKind {
    pub fn as_str(self) -> (r: &'static str)
        ensures
            r@ == loader_name(self),
    {
        match self {
            LoaderKind::Vanilla => "vanilla",
            LoaderKind::Fabric => "fabric",
            LoaderKind::Quilt => "quilt",
            LoaderKind::Neoforge => "neoforge",
            LoaderKind::Forge => "forge",
        }
    }

    /// The name shown for a loader.
    pub fn display_name(self) -> (r: &'static str)
        ensures
            r@ == (match self {
                LoaderKind::Vanilla => "Vanilla"@,
                LoaderKind::Fabric => "Fabric"@,
                LoaderKind::Quilt => "Quilt"@,
                LoaderKind::Neoforge => "NeoForge"@,
                LoaderKind::Forge => "Forge"@,
            }),
    {
        match self {
            LoaderKind::Vanilla => "Vanilla",
            LoaderKind::Fabric => "Fabric",
            LoaderKind::Quilt => "Quilt",
            LoaderKind::Neoforge => "NeoForge",
            LoaderKind::Forge => "Forge",
        }
    }

    /// The loader a name denotes (see `loader_named`).
    pub fn parse(s: &str) -> (r: Self)
        ensures
            r == loader_named(s@),
    {
        let c = to_chars(s);
        if eq_ignore_ascii_case_exec(&c, &lit("fabric")) {
            LoaderKind::Fabric
        } else if eq_ignore_ascii_case_exec(&c, &lit("quilt")) {
            LoaderKind::Quilt
        } else if eq_ignore_ascii_case_exec(&c, &lit("neoforge")) || eq_ignore_ascii_case_exec(
            &c,
            &lit("neo-forge"),
        ) {
            LoaderKind::Neoforge
        } else if eq_ignore_ascii_case_exec(&c, &lit("forge")) {
            LoaderKind::Forge
        } else {
            LoaderKind::Vanilla
        }
    }

    /// Every loader, in the order offered.
    pub fn all() -> (r: [Self; 5])
        ensures
            r@ == seq![
                LoaderKind::Vanilla,
                LoaderKind::Fabric,
                LoaderKind::Quilt,
                LoaderKind::Neoforge,
                LoaderKind::Forge,
            ],
    {
        [LoaderKind::Vanilla, LoaderKind::Fabric, LoaderKind::Quilt, LoaderKind::Neoforge, LoaderKind::Forge]
    }

    /// The game directory's directory for mods, whatever the loader.
    pub fn mods_dir_name(self) -> (r: &'static str)
        ensures
            r@ == "mods"@,
    {
        "mods"
    }
}

/// A loader's stored name parses back to that loader.
pub proof fn law_loader_name_roundtrip(k: LoaderKind)
    ensures
        loader_named(loader_name(k)) == k,
{
    reveal_strlit("vanilla");
    reveal_strlit("fabric");
    reveal_strlit("quilt");
    reveal_strlit("neoforge");
    reveal_strlit("neo-forge");
    reveal_strlit("forge");
    let n = loader_name(k);
    assert(eq_ignore_ascii_case(n, n));
    if k == LoaderKind::Vanilla {
        assert(!eq_ignore_ascii_case(n, "fabric"@) && !eq_ignore_ascii_case(n, "forge"@) && !eq_ignore_ascii_case(
            n,
            "quilt"@,
        ) && !eq_ignore_ascii_case(n, "neoforge"@) && !eq_ignore_ascii_case(n, "neo-forge"@));
    } else if k == LoaderKind::Fabric {
        assert(eq_ignore_ascii_case(n, "fabric"@));
    } else if k == LoaderKind::Quilt {
        assert(!eq_ignore_ascii_case(n, "fabric"@));
    } else if k == LoaderKind::Neoforge {
        assert(!eq_ignore_ascii_case(n, "fabric"@) && !eq_ignore_ascii_case(n, "quilt"@));
    } else {
        assert(crate::text::ascii_lower(n[0]) != crate::text::ascii_lower("quilt"@[0]));
        assert(!eq_ignore_ascii_case(n, "fabric"@) && !eq_ignore_ascii_case(n, "quilt"@) && !eq_ignore_ascii_case(
            n,
            "neoforge"@,
        ) && !eq_ignore_ascii_case(n, "neo-forge"@));
    }
}

/// How an instance picks its Java runtime.
#[derive(Debug, Clone, Copy, PartialEq, Eq, Structural)]
pub enum JavaMode {
    Automatic,
    System,
    Custom,
}

impl Default for JavaMode {
    fn default() -> (r: Self)
        ensures
            r == JavaMode::Automatic,
    {
        JavaMode::Automatic
    }
}

#[derive(Debug, Clone)]
pub struct InstanceConfig {
    pub id: String,
    pub name: String,
    pub icon: String,
    pub minecraft_version: String,
    pub loader: LoaderKind,
    pub loader_version: String,
    pub resolved_version_id: String,
    pub memory_min_mb: u64,
    pub memory_max_mb: u64,
    pub java_mode: JavaMode,
    pub java_path: String,
    pub jvm_args: String,
    pub game_args: String,
    pub width: Option<u32>,
    pub height: Option<u32>,
    pub fullscreen: bool,
    pub created_at: String,
    pub last_played_at: Option<String>,
    pub total_plays: u64,
    pub play_time_secs: u64,
    pub boost_mode: Option<bool>,
}

/// The least memory, in MiB, that a new instance gives the game.
pub const DEFAULT_MIN_MEMORY_MB: u64 = 512;

impl InstanceConfig {
    /// A new instance with a fresh random id and the default settings:
    /// the cube icon, automatic Java, `DEFAULT_MIN_MEMORY_MB` to
    /// `memory_max_mb` of memory, no extra arguments, windowed, never played.
    /// `created_at` is the time of creation and `memory_max_mb` the
    /// machine's default upper memory limit, both read by the caller.
    pub fn new(
        name: String,
        minecraft_version: String,
        loader: LoaderKind,
        loader_version: String,
        created_at: String,
        memory_max_mb: u64,
    ) -> (r: Self)
        ensures
            random_uuid_text(r.id@),
            r.name == name,
            r.minecraft_version == minecraft_version,
            r.loader == loader,
            r.loader_version == loader_version,
            r.created_at == created_at,
            r.icon@ == "cube"@,
            r.resolved_version_id@ == Seq::<char>::empty(),
            r.memory_min_mb == DEFAULT_MIN_MEMORY_MB,
            r.memory_max_mb == memory_max_mb,
            r.java_mode == JavaMode::Automatic,
            r.java_path@ == Seq::<char>::empty(),
            r.jvm_args@ == Seq::<char>::empty(),
            r.game_args@ == Seq::<char>::empty(),
            r.width is None,
            r.height is None,
            !r.fullscreen,
            r.last_played_at is None,
            r.total_plays == 0,
            r.play_time_secs == 0,
            r.boost_mode is None,
    {
        InstanceConfig {
            id: random_id(),
            name,
            icon: from_chars(&lit("cube")),
            minecraft_version,
            loader,
            loader_version,
            resolved_version_id: String::new(),
            memory_min_mb: DEFAULT_MIN_MEMORY_MB,
            memory_max_mb,
            java_mode: JavaMode::Automatic,
            java_path: String::new(),
            jvm_args: String::new(),
            game_args: String::new(),
            width: None,
            height: None,
            fullscreen: false,
            created_at,
            last_played_at: None,
            total_plays: 0,
            play_time_secs: 0,
            boost_mode: None,
        }
    }

    /// `Ok` when the instance names a game version (not blank), else
    /// `InvalidConfig` saying it must be set.
    pub fn check_minecraft_version_set(&self) -> (r: Result<(), MonoryxError>)
        ensures
            trim(self.minecraft_version@).len() > 0 ==> r is Ok,
            trim(self.minecraft_version@).len() == 0 ==> (r matches Err(MonoryxError::InvalidConfig(m)) && m@
                == "Minecraft version must be set"@),
    {
        if trim_exec(&to_chars(self.minecraft_version.as_str())).len() == 0 {
            Err(MonoryxError::InvalidConfig(from_chars(&lit("Minecraft version must be set"))))
        } else {
            Ok(())
        }
    }

    /// The directory of the instance that the game runs in.
    pub fn game_dir_name(&self) -> (r: &'static str)
        ensures
            r@ == "game"@,
    {
        "game"
    }
}

} // verus!
