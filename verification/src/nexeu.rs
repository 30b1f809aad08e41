//! The Nexeu game panel: its records, and the checks made before a request
//! is sent.
use crate::text::{concat2, decimal, decimal_exec, from_chars, has_prefix, is_hex_digit, is_hex_digit_exec, lit, str_starts_with, to_chars, trim, trim_exec};
use vstd::prelude::*;

verus! {

#[derive(Debug, Clone)]
pub struct Server {
    pub uuid: String,
    pub uuid_short: Option<String>,
    pub name: String,
    pub description: Option<String>,
    pub status: Option<String>,
    pub allocation: Option<Allocation>,
}

#[derive(Debug, Clone)]
pub struct Allocation {
    pub ip: Option<String>,
    pub ip_alias: Option<String>,
    pub port: Option<u16>,
}

#[derive(Debug, Clone)]
pub struct Announcement {
    pub title: String,
    pub content: Option<String>,
}

#[derive(Debug, Clone)]
pub struct Backup {
    pub name: String,
    pub is_successful: Option<bool>,
    pub bytes: Option<u64>,
    pub created: Option<String>,
}

/// A server identifier safe to put in a request path: 8 to 36 hex digits
/// or hyphens.
pub open spec fn valid_server_id(id: Seq<char>) -> bool {
    8 <= id.len() <= 36 && forall|i: int| 0 <= i < id.len() ==> is_hex_digit(#[trigger] id[i]) || id[i] == '-'
}

/// The identifier itself when it is valid, else the error shown.
pub fn server_id(id: &str) -> (r: Result<String, String>)
    ensures
        valid_server_id(id@) ==> (r matches Ok(s) && s@ == id@),
        !valid_server_id(id@) ==> (r matches Err(m) && m@ == "invalid server identifier"@),
{
    let c = to_chars(id);
    let mut ok = 8 <= c.len() && c.len() <= 36;
    let mut i: usize = 0;
    while ok && i < c.len()
        invariant
            i <= c.len(),
            c@ == id@,
            ok ==> 8 <= c.len() <= 36,
            ok ==> forall|j: int| 0 <= j < i ==> is_hex_digit(#[trigger] c@[j]) || c@[j] == '-',
            !ok ==> !valid_server_id(id@),
        decreases c.len() - i,
    {
        if !(is_hex_digit_exec(c[i]) || c[i] == '-') {
            ok = false;
        }
        i += 1;
    }
    if ok {
        Ok(String::from_str(id))
    } else {
        Err(String::from_str("invalid server identifier"))
    }
}

/// The `Authorization` header for an API key: the trimmed key, with
/// `Bearer ` put in front unless it already starts so.
pub open spec fn auth_header_spec(key: Seq<char>) -> Seq<char> {
    if has_prefix(trim(key), "Bearer "@) {
        trim(key)
    } else {
        "Bearer "@ + trim(key)
    }
}

pub fn auth_header(key: &str) -> (r: String)
    ensures
        r@ == auth_header_spec(key@),
{
    let k = trim_exec(&to_chars(key));
    if str_starts_with(&k, "Bearer ") {
        from_chars(&k)
    } else {
        from_chars(&concat2(&lit("Bearer "), &k))
    }
}

/// The message for a failed request, given the HTTP status code and its
/// text (code and reason, as the HTTP client prints it).
pub fn api_error(status: u16, status_text: &str) -> (r: String)
    ensures
        status == 401 ==> r@
            == "Nexeu rejected this API key (401). Check that you pasted the full key, and that it is active and allowed from your IP address."@,
        status == 403 ==> r@ == "Nexeu denied access (403). Check the API key permissions for this server action."@,
        status != 401 && status != 403 ==> r@ == "Nexeu returned HTTP "@ + status_text@,
{
    if status == 401 {
        String::from_str(
            "Nexeu rejected this API key (401). Check that you pasted the full key, and that it is active and allowed from your IP address.",
        )
    } else if status == 403 {
        String::from_str("Nexeu denied access (403). Check the API key permissions for this server action.")
    } else {
        from_chars(&concat2(&lit("Nexeu returned HTTP "), &to_chars(status_text)))
    }
}

/// The number of bytes a character takes in UTF-8.
pub open spec fn utf8_width(c: char) -> nat {
    if (c as u32) < 0x80 {
        1
    } else if (c as u32) < 0x800 {
        2
    } else if (c as u32) < 0x10000 {
        3
    } else {
        4
    }
}

/// The number of bytes a text takes in UTF-8.
pub open spec fn utf8_len(s: Seq<char>) -> nat
    decreases s.len(),
{
    if s.len() == 0 {
        0
    } else {
        utf8_len(s.drop_last()) + utf8_width(s.last())
    }
}

/// A control character (Unicode category Cc).
pub open spec fn is_control(c: char) -> bool {
    (c as u32) < 0x20 || (0x7f <= (c as u32) && (c as u32) < 0xa0)
}

/// A console command that may be sent: not blank, at most 1024 bytes once
/// trimmed, and without control characters.
pub open spec fn valid_command(command: Seq<char>) -> bool {
    let c = trim(command);
    c.len() > 0 && utf8_len(c) <= 1024 && forall|i: int| 0 <= i < c.len() ==> !is_control(#[trigger] c[i])
}

/// The trimmed command when it may be sent, else the error shown.
pub fn check_command(command: &str) -> (r: Result<String, String>)
    ensures
        valid_command(command@) ==> (r matches Ok(c) && c@ == trim(command@)),
        !valid_command(command@) ==> (r matches Err(m) && m@ == "enter one console command (up to 1024 characters)"@),
{
    let c = trim_exec(&to_chars(command));
    let mut bytes: usize = 0;
    let mut ok = c.len() > 0;
    let mut i: usize = 0;
    while ok && i < c.len()
        invariant
            i <= c.len(),
            c@ == trim(command@),
            ok ==> c.len() > 0,
            ok ==> bytes == utf8_len(c@.take(i as int)) && bytes <= 1024,
            ok ==> forall|j: int| 0 <= j < i ==> !is_control(#[trigger] c@[j]),
            !ok ==> !valid_command(command@),
        decreases c.len() - i,
    {
        let ch = c[i];
        let n = ch as u32;
        let w: usize = if n < 0x80 {
            1
        } else if n < 0x800 {
            2
        } else if n < 0x10000 {
            3
        } else {
            4
        };
        assert(c@.take(i + 1).drop_last() =~= c@.take(i as int));
        if n < 0x20 || (0x7f <= n && n < 0xa0) {
            ok = false;
        } else if bytes + w > 1024 {
            proof {
                lemma_utf8_len_prefix(c@, i + 1);
            }
            ok = false;
        } else {
            bytes = bytes + w;
        }
        i += 1;
    }
    if ok {
        assert(c@.take(c.len() as int) =~= c@);
        Ok(from_chars(&c))
    } else {
        Err(String::from_str("enter one console command (up to 1024 characters)"))
    }
}

proof fn lemma_utf8_len_prefix(s: Seq<char>, n: int)
    requires
        0 <= n <= s.len(),
    ensures
        utf8_len(s.take(n)) <= utf8_len(s),
    decreases s.len() - n,
{
    if n < s.len() {
        lemma_utf8_len_prefix(s, n + 1);
        assert(s.take(n + 1).drop_last() =~= s.take(n));
    } else {
        assert(s.take(n) =~= s);
    }
}

/// A power action the panel documents: start, stop, restart or kill.
pub open spec fn valid_power_action(action: Seq<char>) -> bool {
    action == "start"@ || action == "stop"@ || action == "restart"@ || action == "kill"@
}

pub fn check_power_action(action: &str) -> (r: Result<(), String>)
    ensures
        valid_power_action(action@) ==> r is Ok,
        !valid_power_action(action@) ==> (r matches Err(m) && m@ == "invalid power action"@),
{
    let a = to_chars(action);
    if crate::text::eq_str(&a, "start") || crate::text::eq_str(&a, "stop") || crate::text::eq_str(&a, "restart")
        || crate::text::eq_str(&a, "kill") {
        Ok(())
    } else {
        Err(String::from_str("invalid power action"))
    }
}

/// Whether paging through the server list stops after a page: all servers
/// collected, or the panel answered for another page than asked.
pub fn server_paging_done(collected: usize, total: usize, page_answered: usize, page_asked: usize) -> (r: bool)
    ensures
        r == (collected >= total || page_answered != page_asked),
{
    collected >= total || page_answered != page_asked
}

/// The panel's client API.
pub const NEXEU_API: &'static str = "https://game.nexeu.zip/api";

/// How many pages of servers are asked for at most.
pub const MAX_SERVER_PAGES: usize = 20;

/// The URL of a path of the panel's API.
pub fn api_url(path: &str) -> (r: String)
    ensures
        r@ == "https://game.nexeu.zip/api"@ + path@,
{
    from_chars(&concat2(&lit("https://game.nexeu.zip/api"), &to_chars(path)))
}

/// The account's path.
pub const ACCOUNT_PATH: &'static str = "/client/account";

/// The path of the panel's announcements.
pub const ANNOUNCEMENTS_PATH: &'static str = "/announcements";

/// The path of one page of the account's servers, fifty to a page.
pub fn servers_page_path(page: usize) -> (r: String)
    ensures
        r@ == "/client/servers?page="@ + decimal(page as nat) + "&per_page=50"@,
{
    let mut p = lit("/client/servers?page=");
    crate::text::push_all(&mut p, &decimal_exec(page as u64));
    crate::text::push_all(&mut p, &lit("&per_page=50"));
    from_chars(&p)
}

/// What a request about one server is for.
#[derive(Debug, Clone, Copy, PartialEq, Eq)]
pub enum ServerEndpoint {
    Resources,
    Logs,
    ListBackups,
    CreateBackup,
    Command,
    Power,
}

/// The end of the path of a request about one server.
pub open spec fn endpoint_suffix(e: ServerEndpoint) -> Seq<char> {
    match e {
        ServerEndpoint::Resources => "/resources"@,
        ServerEndpoint::Logs => "/logs"@,
        ServerEndpoint::ListBackups => "/backups?page=1&per_page=20&ungrouped=false"@,
        ServerEndpoint::CreateBackup => "/backups"@,
        ServerEndpoint::Command => "/command"@,
        ServerEndpoint::Power => "/power"@,
    }
}

/// The URL of a request about a server, once its identifier is checked
/// (see `server_id`).
pub fn server_url(id: &str, endpoint: ServerEndpoint) -> (r: Result<String, String>)
    ensures
        valid_server_id(id@) ==> (r matches Ok(u) && u@ == "https://game.nexeu.zip/api/client/servers/"@ + id@
            + endpoint_suffix(endpoint)),
        !valid_server_id(id@) ==> (r matches Err(m) && m@ == "invalid server identifier"@),
{
    let id = match server_id(id) {
        Ok(i) => i,
        Err(e) => {
            return Err(e);
        },
    };
    let suffix = match endpoint {
        ServerEndpoint::Resources => "/resources",
        ServerEndpoint::Logs => "/logs",
        ServerEndpoint::ListBackups => "/backups?page=1&per_page=20&ungrouped=false",
        ServerEndpoint::CreateBackup => "/backups",
        ServerEndpoint::Command => "/command",
        ServerEndpoint::Power => "/power",
    };
    let mut u = lit("https://game.nexeu.zip/api/client/servers/");
    crate::text::push_all(&mut u, &to_chars(id.as_str()));
    crate::text::push_all(&mut u, &to_chars(suffix));
    Ok(from_chars(&u))
}

/// The message when the panel could not be reached.
pub fn connection_error(reason: &str) -> (r: String)
    ensures
        r@ == "Nexeu connection failed: "@ + reason@,
{
    from_chars(&concat2(&lit("Nexeu connection failed: "), &to_chars(reason)))
}

/// The message when the panel's answer could not be read.
pub fn unreadable_response(reason: &str) -> (r: String)
    ensures
        r@ == "Nexeu response could not be read: "@ + reason@,
{
    from_chars(&concat2(&lit("Nexeu response could not be read: "), &to_chars(reason)))
}

/// The message when a server's logs could not be read.
pub fn unreadable_logs(reason: &str) -> (r: String)
    ensures
        r@ == "Nexeu logs could not be read: "@ + reason@,
{
    from_chars(&concat2(&lit("Nexeu logs could not be read: "), &to_chars(reason)))
}

} // verus!
