//! What is sent to Modrinth (search facets, version queries) and what its
//! replies lead to.
use crate::error::MonoryxError;
use crate::text::{concat2, decimal, decimal_exec, from_chars, lit, parse_u64, parse_u64_exec, push_all, to_chars};
use vstd::prelude::*;

verus! {

/// The characters an optional text holds.
pub open spec fn opt_text(o: Option<&str>) -> Option<Seq<char>> {
    match o {
        Some(t) => Some(t@),
        None => None,
    }
}

/// The facet groups for a search: the project type, the game version
/// unless empty, and the loader category unless empty, `vanilla` or
/// `minecraft`, or the search is for shaders or resource packs.
pub open spec fn facets_spec(
    project_type: Option<Seq<char>>,
    game_version: Option<Seq<char>>,
    loader: Option<Seq<char>>,
) -> Seq<Seq<Seq<char>>> {
    let p1: Seq<Seq<Seq<char>>> = match project_type {
        Some(t) => seq![seq!["project_type:"@ + t]],
        None => seq![],
    };
    let p2 = match game_version {
        Some(g) => if g.len() > 0 {
            p1.push(seq!["versions:"@ + g])
        } else {
            p1
        },
        None => p1,
    };
    let pack_or_shader = project_type == Some("shader"@) || project_type == Some("resourcepack"@);
    match loader {
        Some(l) => if !pack_or_shader && l.len() > 0 && l != "vanilla"@ && l != "minecraft"@ {
            p2.push(seq!["categories:"@ + l])
        } else {
            p2
        },
        None => p2,
    }
}

fn single(prefix: &str, value: &str) -> (r: Vec<String>)
    ensures
        r.deep_view() == seq![prefix@ + value@],
{
    let mut v: Vec<String> = Vec::new();
    v.push(from_chars(&concat2(&to_chars(prefix), &to_chars(value))));
    assert(v.deep_view() =~= seq![prefix@ + value@]);
    v
}

/// The facet groups of a search.
pub fn facets_for(project_type: Option<&str>, game_version: Option<&str>, loader: Option<&str>) -> (r: Vec<Vec<String>>)
    ensures
        r.deep_view() == facets_spec(opt_text(project_type), opt_text(game_version), opt_text(loader)),
{
    let mut facets: Vec<Vec<String>> = Vec::new();
    let mut pack_or_shader = false;
    if let Some(t) = project_type {
        let tc = to_chars(t);
        pack_or_shader = crate::text::eq_str(&tc, "shader") || crate::text::eq_str(&tc, "resourcepack");
        facets.push(single("project_type:", t));
    }
    assert(facets.deep_view() =~= (match opt_text(project_type) {
        Some(t) => seq![seq!["project_type:"@ + t]],
        None => Seq::<Seq<Seq<char>>>::empty(),
    }));
    if let Some(g) = game_version {
        if to_chars(g).len() > 0 {
            let ghost before = facets.deep_view();
            facets.push(single("versions:", g));
            assert(facets.deep_view() =~= before.push(seq!["versions:"@ + g@]));
        }
    }
    if let Some(l) = loader {
        let lc = to_chars(l);
        if !pack_or_shader && lc.len() > 0 && !crate::text::eq_str(&lc, "vanilla") && !crate::text::eq_str(&lc, "minecraft") {
            let ghost before = facets.deep_view();
            facets.push(single("categories:", l));
            assert(facets.deep_view() =~= before.push(seq!["categories:"@ + l@]));
        }
    }
    facets
}

/// The JSON text serde_json writes for facet groups, when it writes one.
pub uninterp spec fn facets_json(facets: Seq<Seq<Seq<char>>>) -> Option<Seq<char>>;

/// Trusted: `serde_json::to_string` of the facet groups (a JSON array of
/// arrays of strings). The contract only names that outcome.
#[verifier::external_body]
fn facets_to_json(facets: &Vec<Vec<String>>) -> (r: Option<String>)
    ensures
        facets_json(facets.deep_view()) == (match r {
            Some(s) => Some(s@),
            None => None,
        }),
{
    serde_json::to_string(facets).ok()
}

/// The `facets` parameter of a search: the facet groups as JSON, or `[]`
/// should they not serialise.
pub fn build_facets(project_type: Option<&str>, game_version: Option<&str>, loader: Option<&str>) -> (r: String)
    ensures
        facets_json(facets_spec(opt_text(project_type), opt_text(game_version), opt_text(loader))) matches Some(s)
            ==> r@ == s,
        facets_json(facets_spec(opt_text(project_type), opt_text(game_version), opt_text(loader))) is None
            ==> r@ == "[]"@,
{
    let facets = facets_for(project_type, game_version, loader);
    match facets_to_json(&facets) {
        Some(s) => s,
        None => String::from_str("[]"),
    }
}

/// Modrinth's API.
pub const API_BASE: &'static str = "https://api.modrinth.com/v2";

/// The `facets` parameter of a search, as `build_facets` makes it.
pub open spec fn facets_param(project_type: Option<Seq<char>>, game_version: Option<Seq<char>>, loader: Option<Seq<char>>) -> Seq<char> {
    match facets_json(facets_spec(project_type, game_version, loader)) {
        Some(s) => s,
        None => "[]"@,
    }
}

/// The text of the URL `input` with the query pairs form-encoded onto it,
/// or the text of the error when `input` is no absolute URL.
pub uninterp spec fn url_with_query(input: Seq<char>, pairs: Seq<(Seq<char>, Seq<char>)>) -> Result<Seq<char>, Seq<char>>;

/// The characters of query pairs.
pub open spec fn pair_views(v: Seq<(String, String)>) -> Seq<(Seq<char>, Seq<char>)> {
    v.map_values(|p: (String, String)| (p.0@, p.1@))
}

/// Trusted: `url::Url::parse_with_params(input, pairs)`, then the URL's
/// text (`Url::as_str`) or the `Display` text of the parse error. The
/// contract only names that outcome; the url crate does the encoding.
#[verifier::external_body]
fn parse_with_query(input: &str, pairs: &Vec<(String, String)>) -> (r: Result<String, String>)
    ensures
        crate::java::managed::text_result_view(r) == url_with_query(input@, pair_views(pairs@)),
{
    match url::Url::parse_with_params(input, pairs.iter()) {
        Ok(u) => Ok(u.as_str().to_string()),
        Err(e) => Err(e.to_string()),
    }
}

/// The query pairs of a search.
pub open spec fn search_pairs(query: Seq<char>, facets: Seq<char>, sort: Seq<char>, limit: u32, offset: u32) -> Seq<
    (Seq<char>, Seq<char>),
> {
    seq![
        ("query"@, query),
        ("facets"@, facets),
        ("index"@, sort),
        ("limit"@, decimal(limit as nat)),
        ("offset"@, decimal(offset as nat)),
    ]
}

/// The search URL once the URL library has built it: the URL, or a
/// `Modrinth` error with the library's message.
pub fn search_url_from(built: Result<String, String>) -> (r: Result<String, MonoryxError>)
    ensures
        built matches Ok(u) ==> r == Ok::<String, MonoryxError>(u),
        built matches Err(e) ==> (r matches Err(MonoryxError::Modrinth(m)) && m == e),
{
    match built {
        Ok(u) => Ok(u),
        Err(e) => Err(MonoryxError::Modrinth(e)),
    }
}

/// The URL of a search of `/search`: the query, the facets (see
/// `build_facets`), the sort index, and the page's limit and offset.
pub fn search_url(
    query: &str,
    project_type: Option<&str>,
    game_version: Option<&str>,
    loader: Option<&str>,
    sort: &str,
    limit: u32,
    offset: u32,
) -> (r: Result<String, MonoryxError>)
    ensures
        ({
            let built = url_with_query(
                "https://api.modrinth.com/v2/search"@,
                search_pairs(
                    query@,
                    facets_param(opt_text(project_type), opt_text(game_version), opt_text(loader)),
                    sort@,
                    limit,
                    offset,
                ),
            );
            &&& built matches Ok(u) ==> (r matches Ok(s) && s@ == u)
            &&& built matches Err(e) ==> (r matches Err(MonoryxError::Modrinth(m)) && m@ == e)
        }),
{
    let facets = build_facets(project_type, game_version, loader);
    let mut pairs: Vec<(String, String)> = Vec::new();
    pairs.push((from_chars(&lit("query")), from_chars(&to_chars(query))));
    pairs.push((from_chars(&lit("facets")), facets));
    pairs.push((from_chars(&lit("index")), from_chars(&to_chars(sort))));
    pairs.push((from_chars(&lit("limit")), from_chars(&decimal_exec(limit as u64))));
    pairs.push((from_chars(&lit("offset")), from_chars(&decimal_exec(offset as u64))));
    let base = from_chars(&lit("https://api.modrinth.com/v2/search"));
    let ghost fp = facets_param(opt_text(project_type), opt_text(game_version), opt_text(loader));
    assert(pair_views(pairs@) =~= search_pairs(query@, fp, sort@, limit, offset));
    search_url_from(parse_with_query(base.as_str(), &pairs))
}

/// The URL of a project.
pub fn project_url(id_or_slug: &str) -> (r: String)
    ensures
        r@ == "https://api.modrinth.com/v2/project/"@ + id_or_slug@,
{
    from_chars(&concat2(&lit("https://api.modrinth.com/v2/project/"), &to_chars(id_or_slug)))
}

/// The URL of a version.
pub fn version_url(version_id: &str) -> (r: String)
    ensures
        r@ == "https://api.modrinth.com/v2/version/"@ + version_id@,
{
    from_chars(&concat2(&lit("https://api.modrinth.com/v2/version/"), &to_chars(version_id)))
}

/// The cache key a project's details are kept under.
pub fn project_cache_key(id: &str) -> (r: String)
    ensures
        r@ == "project-"@ + id@,
{
    from_chars(&concat2(&lit("project-"), &to_chars(id)))
}

/// A batch request (versions by id, versions by file hash) is only sent
/// for a non-empty batch; an empty one answers empty at once.
pub fn batch_needed(count: usize) -> (r: bool)
    ensures
        r == (count > 0),
{
    count > 0
}

/// What to do with a reply from Modrinth.
#[derive(Debug)]
pub enum ModrinthReply {
    /// Read the body.
    Accept,
    /// Ask again after this many milliseconds.
    RetryAfterMs(u64),
    /// Give up with this error.
    Fail(MonoryxError),
}

/// The pause Modrinth asks for before retrying attempt `attempt`: the
/// `Retry-After` seconds when they parse, else the attempt number, at most
/// ten seconds.
pub open spec fn throttle_wait_ms(attempt: u32, retry_after: Option<Seq<char>>) -> u64 {
    let secs: u64 = match retry_after {
        Some(v) => match parse_u64(v) {
            Some(n) => n,
            None => attempt as u64,
        },
        None => attempt as u64,
    };
    ((if secs < 10 { secs } else { 10 }) * 1000) as u64
}

/// The reply to attempt number `attempt` at `url`: throttling (429) is
/// retried for the first four attempts, a server error (5xx) for the first
/// three after `400 ms` times the attempt number; another failing status is
/// an error naming the status (`status_text`, as it displays) and the URL.
pub fn modrinth_reply(code: u16, status_text: &str, attempt: u32, retry_after: Option<&str>, url: &str) -> (r:
    ModrinthReply)
    ensures
        code == 429 && attempt < 5 ==> (r matches ModrinthReply::RetryAfterMs(ms) && ms == throttle_wait_ms(
            attempt,
            match retry_after {
                Some(v) => Some(v@),
                None => None,
            },
        )),
        !(code == 429 && attempt < 5) && 500 <= code < 600 && attempt < 4 ==> (r matches ModrinthReply::RetryAfterMs(ms)
            && ms == 400 * attempt),
        !(code == 429 && attempt < 5) && !(500 <= code < 600 && attempt < 4) && !(200 <= code < 300) ==> (r matches ModrinthReply::Fail(
            MonoryxError::Modrinth(m),
        ) && m@ == "Modrinth returned HTTP "@ + status_text@ + " for "@ + url@),
        !(code == 429 && attempt < 5) && !(500 <= code < 600 && attempt < 4) && 200 <= code < 300 ==> r is Accept,
{
    if code == 429 && attempt < 5 {
        let secs: u64 = match retry_after {
            Some(v) => match parse_u64_exec(&to_chars(v)) {
                Some(n) => n,
                None => attempt as u64,
            },
            None => attempt as u64,
        };
        let capped = if secs < 10 {
            secs
        } else {
            10
        };
        return ModrinthReply::RetryAfterMs(capped * 1000);
    }
    if 500 <= code && code < 600 && attempt < 4 {
        return ModrinthReply::RetryAfterMs(400 * attempt as u64);
    }
    if !(200 <= code && code < 300) {
        let mut m = lit("Modrinth returned HTTP ");
        push_all(&mut m, &to_chars(status_text));
        push_all(&mut m, &lit(" for "));
        push_all(&mut m, &to_chars(url));
        return ModrinthReply::Fail(MonoryxError::Modrinth(from_chars(&m)));
    }
    ModrinthReply::Accept
}

/// A failing status for a batch request to an API path.
pub fn batch_status_error(path: &str, status_text: &str) -> (r: MonoryxError)
    ensures
        r matches MonoryxError::Modrinth(m) && m@ == "Modrinth returned HTTP "@ + status_text@ + " for "@ + path@,
{
    let mut m = lit("Modrinth returned HTTP ");
    push_all(&mut m, &to_chars(status_text));
    push_all(&mut m, &lit(" for "));
    push_all(&mut m, &to_chars(path));
    MonoryxError::Modrinth(from_chars(&m))
}

/// The URL of a project's versions, filtered by game version and loader
/// when given.
pub fn project_versions_url(id_or_slug: &str, game_version: Option<&str>, loader: Option<&str>) -> (r: String)
    ensures
        ({
            let base = API_BASE@ + "/project/"@ + id_or_slug@ + "/version"@;
            let g = match game_version {
                Some(g) => Some("game_versions=[\""@ + g@ + "\"]"@),
                None => None,
            };
            let l = match loader {
                Some(l) => Some("loaders=[\""@ + l@ + "\"]"@),
                None => None,
            };
            r@ == match (g, l) {
                (None, None) => base,
                (Some(a), None) => base + "?"@ + a,
                (None, Some(b)) => base + "?"@ + b,
                (Some(a), Some(b)) => base + "?"@ + a + "&"@ + b,
            }
        }),
{
    let mut u = lit(API_BASE);
    push_all(&mut u, &lit("/project/"));
    push_all(&mut u, &to_chars(id_or_slug));
    push_all(&mut u, &lit("/version"));
    let mut first = true;
    if let Some(g) = game_version {
        push_all(&mut u, &lit("?game_versions=[\""));
        push_all(&mut u, &to_chars(g));
        push_all(&mut u, &lit("\"]"));
        first = false;
    }
    if let Some(l) = loader {
        if first {
            push_all(&mut u, &lit("?"));
        } else {
            push_all(&mut u, &lit("&"));
        }
        push_all(&mut u, &lit("loaders=[\""));
        push_all(&mut u, &to_chars(l));
        push_all(&mut u, &lit("\"]"));
    }
    proof {
        reveal_strlit("?game_versions=[\"");
        reveal_strlit("game_versions=[\"");
        reveal_strlit("?");
        assert("?game_versions=[\""@ =~= "?"@ + "game_versions=[\""@);
    }
    from_chars(&u)
}

} // verus!
