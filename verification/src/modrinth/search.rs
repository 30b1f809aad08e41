//! Search ordering and filters.
use vstd::prelude::*;

verus! {

#[derive(Debug, Clone, Copy, PartialEq, Eq, Structural)]
pub enum SortOrder {
    Relevance,
    Downloads,
    Updated,
    Newest,
}

impl Default for SortOrder {
    fn default() -> (r: Self)
        ensures
            r == SortOrder::Relevance,
    {
        SortOrder::Relevance
    }
}

impl SortOrder {
    /// The `index` parameter of a search request.
    pub fn api_value(self) -> (r: &'static str)
        ensures
            r@ == (match self {
                SortOrder::Relevance => "relevance"@,
                SortOrder::Downloads => "downloads"@,
                SortOrder::Updated => "updated"@,
                SortOrder::Newest => "newest"@,
            }),
    {
        match self {
            SortOrder::Relevance => "relevance",
            SortOrder::Downloads => "downloads",
            SortOrder::Updated => "updated",
            SortOrder::Newest => "newest",
        }
    }

    /// The name shown for the order.
    pub fn label(self) -> (r: &'static str)
        ensures
            r@ == (match self {
                SortOrder::Relevance => "Relevance"@,
                SortOrder::Downloads => "Downloads"@,
                SortOrder::Updated => "Recently updated"@,
                SortOrder::Newest => "Newest"@,
            }),
    {
        match self {
            SortOrder::Relevance => "Relevance",
            SortOrder::Downloads => "Downloads",
            SortOrder::Updated => "Recently updated",
            SortOrder::Newest => "Newest",
        }
    }

    /// Every order, in the order offered.
    pub fn all() -> (r: [Self; 4])
        ensures
            r@ == seq![SortOrder::Relevance, SortOrder::Downloads, SortOrder::Updated, SortOrder::Newest],
    {
        [SortOrder::Relevance, SortOrder::Downloads, SortOrder::Updated, SortOrder::Newest]
    }
}

#[derive(Debug, Clone)]
pub struct SearchFilters {
    pub query: String,
    pub project_type: String,
    pub game_version: String,
    pub loader: String,
    pub sort: SortOrder,
    pub limit: u32,
    pub offset: u32,
}

impl Default for SearchFilters {
    /// Mods by relevance, 24 to a page, from the start, with no query or
    /// game version or loader.
    fn default() -> (r: Self)
        ensures
            r.query@ == Seq::<char>::empty(),
            r.project_type@ == "mod"@,
            r.game_version@ == Seq::<char>::empty(),
            r.loader@ == Seq::<char>::empty(),
            r.sort == SortOrder::Relevance,
            r.limit == 24,
            r.offset == 0,
    {
        SearchFilters {
            query: String::new(),
            project_type: String::from_str("mod"),
            game_version: String::new(),
            loader: String::new(),
            sort: SortOrder::Relevance,
            limit: 24,
            offset: 0,
        }
    }
}

/// The search filters for the selected instance and the discover tab: a
/// blank game version or loader takes the instance's (its loader as
/// Modrinth names it, `minecraft` for vanilla), and the project type is the
/// tab's.
pub fn sync_search_filters(
    filters: SearchFilters,
    instance: Option<(&str, crate::instance::config::LoaderKind)>,
    tab: crate::content::store::ContentKind,
) -> (r: SearchFilters)
    ensures
        r.query == filters.query,
        r.sort == filters.sort,
        r.limit == filters.limit,
        r.offset == filters.offset,
        r.game_version@ == match instance {
            Some((mc, _)) => if filters.game_version@.len() == 0 {
                mc@
            } else {
                filters.game_version@
            },
            None => filters.game_version@,
        },
        r.loader@ == match instance {
            Some((_, l)) => if filters.loader@.len() == 0 {
                match l {
                    crate::instance::config::LoaderKind::Fabric => "fabric"@,
                    crate::instance::config::LoaderKind::Quilt => "quilt"@,
                    crate::instance::config::LoaderKind::Forge => "forge"@,
                    crate::instance::config::LoaderKind::Neoforge => "neoforge"@,
                    crate::instance::config::LoaderKind::Vanilla => "minecraft"@,
                }
            } else {
                filters.loader@
            },
            None => filters.loader@,
        },
        r.project_type@ == match tab {
            crate::content::store::ContentKind::Mod => "mod"@,
            crate::content::store::ContentKind::Resourcepack => "resourcepack"@,
            crate::content::store::ContentKind::Shader => "shader"@,
        },
{
    let mut f = filters;
    if let Some((mc, loader)) = instance {
        if crate::text::to_chars(f.game_version.as_str()).len() == 0 {
            f.game_version = String::from_str(mc);
        }
        if crate::text::to_chars(f.loader.as_str()).len() == 0 {
            f.loader = String::from_str(
                match loader {
                    crate::instance::config::LoaderKind::Fabric => "fabric",
                    crate::instance::config::LoaderKind::Quilt => "quilt",
                    crate::instance::config::LoaderKind::Forge => "forge",
                    crate::instance::config::LoaderKind::Neoforge => "neoforge",
                    crate::instance::config::LoaderKind::Vanilla => "minecraft",
                },
            );
        }
    }
    f.project_type = String::from_str(
        match tab {
            crate::content::store::ContentKind::Mod => "mod",
            crate::content::store::ContentKind::Resourcepack => "resourcepack",
            crate::content::store::ContentKind::Shader => "shader",
        },
    );
    f
}

} // verus!
