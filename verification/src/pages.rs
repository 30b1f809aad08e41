//! The launcher's pages and their names.
use vstd::prelude::*;

verus! {

#[derive(Debug, Clone, Copy, PartialEq, Eq, Structural)]
pub enum Page {
    Onboarding,
    Home,
    Instances,
    Discover,
    Library,
    Downloads,
    Accounts,
    Settings,
    Logs,
}

impl Default for Page {
    fn default() -> (r: Self)
        ensures
            r == Page::Home,
    {
        Page::Home
    }
}

/// The name a page is stored under.
pub open spec fn page_name(p: Page) -> Seq<char> {
    match p {
        Page::Onboarding => "onboarding"@,
        Page::Home => "home"@,
        Page::Instances => "instances"@,
        Page::Discover => "discover"@,
        Page::Library => "library"@,
        Page::Downloads => "downloads"@,
        Page::Accounts => "accounts"@,
        Page::Settings => "settings"@,
        Page::Logs => "logs"@,
    }
}

/// The page a stored name opens: the navigable pages by name, anything
/// else (onboarding included) the home page.
pub open spec fn page_named(s: Seq<char>) -> Page {
    if s == "instances"@ {
        Page::Instances
    } else if s == "discover"@ {
        Page::Discover
    } else if s == "library"@ {
        Page::Library
    } else if s == "downloads"@ {
        Page::Downloads
    } else if s == "accounts"@ {
        Page::Accounts
    } else if s == "settings"@ {
        Page::Settings
    } else if s == "logs"@ {
        Page::Logs
    } else {
        Page::Home
    }
}

impl Page {
    /// The title shown for a page.
    pub fn label(self) -> (r: &'static str)
        ensures
            r@ == (match self {
                Page::Onboarding => "Welcome"@,
                Page::Home => "Home"@,
                Page::Instances => "Instances"@,
                Page::Discover => "Discover"@,
                Page::Library => "Library"@,
                Page::Downloads => "Downloads"@,
                Page::Accounts => "Accounts"@,
                Page::Settings => "Settings"@,
                Page::Logs => "Logs"@,
            }),
    {
        match self {
            Page::Onboarding => "Welcome",
            Page::Home => "Home",
            Page::Instances => "Instances",
            Page::Discover => "Discover",
            Page::Library => "Library",
            Page::Downloads => "Downloads",
            Page::Accounts => "Accounts",
            Page::Settings => "Settings",
            Page::Logs => "Logs",
        }
    }

    /// The pages of the navigation, in order (onboarding is not one).
    pub fn all() -> (r: [Self; 8])
        ensures
            r@ == seq![
                Page::Home,
                Page::Instances,
                Page::Discover,
                Page::Library,
                Page::Downloads,
                Page::Accounts,
                Page::Settings,
                Page::Logs,
            ],
    {
        [
            Page::Home,
            Page::Instances,
            Page::Discover,
            Page::Library,
            Page::Downloads,
            Page::Accounts,
            Page::Settings,
            Page::Logs,
        ]
    }

    pub fn from_page_str(s: &str) -> (r: Self)
        ensures
            r == page_named(s@),
    {
        let c = crate::text::to_chars(s);
        if crate::text::eq_str(&c, "instances") {
            Page::Instances
        } else if crate::text::eq_str(&c, "discover") {
            Page::Discover
        } else if crate::text::eq_str(&c, "library") {
            Page::Library
        } else if crate::text::eq_str(&c, "downloads") {
            Page::Downloads
        } else if crate::text::eq_str(&c, "accounts") {
            Page::Accounts
        } else if crate::text::eq_str(&c, "settings") {
            Page::Settings
        } else if crate::text::eq_str(&c, "logs") {
            Page::Logs
        } else {
            Page::Home
        }
    }

    pub fn as_str(self) -> (r: &'static str)
        ensures
            r@ == page_name(self),
    {
        match self {
            Page::Onboarding => "onboarding",
            Page::Home => "home",
            Page::Instances => "instances",
            Page::Discover => "discover",
            Page::Library => "library",
            Page::Downloads => "downloads",
            Page::Accounts => "accounts",
            Page::Settings => "settings",
            Page::Logs => "logs",
        }
    }
}

/// Every navigable page opens again from its stored name; onboarding,
/// which is not navigable, opens the home page.
pub proof fn law_page_name_roundtrip(p: Page)
    ensures
        p != Page::Onboarding ==> page_named(page_name(p)) == p,
        page_named(page_name(Page::Onboarding)) == Page::Home,
{
    reveal_strlit("onboarding");
    reveal_strlit("home");
    reveal_strlit("instances");
    reveal_strlit("discover");
    reveal_strlit("library");
    reveal_strlit("downloads");
    reveal_strlit("accounts");
    reveal_strlit("settings");
    reveal_strlit("logs");
    assert("home"@[0] != "logs"@[0] && "home"@[0] != "instances"@[0]);
    assert("instances"@[0] != "discover"@[0] && "instances"@[0] != "library"@[0] && "instances"@[0] != "downloads"@[0]);
    assert("instances"@[0] != "accounts"@[0] && "instances"@[0] != "settings"@[0] && "instances"@[0] != "logs"@[0]);
    assert("discover"@[1] != "downloads"@[1]);
    assert("library"@[1] != "logs"@[1]);
    assert("onboarding"@[0] != "instances"@[0] && "onboarding"@[0] != "discover"@[0] && "onboarding"@[0] != "library"@[0]);
    assert("onboarding"@[0] != "downloads"@[0] && "onboarding"@[0] != "accounts"@[0] && "onboarding"@[0] != "settings"@[0]);
    assert("onboarding"@[0] != "logs"@[0]);
    assert("home"@[0] != "discover"@[0] && "home"@[0] != "library"@[0] && "home"@[0] != "downloads"@[0]);
    assert("home"@[0] != "accounts"@[0] && "home"@[0] != "settings"@[0]);
    assert("accounts"@[0] != "discover"@[0] && "accounts"@[0] != "library"@[0] && "accounts"@[0] != "downloads"@[0]);
    assert("settings"@[0] != "discover"@[0] && "settings"@[0] != "library"@[0] && "settings"@[0] != "downloads"@[0]);
    assert("settings"@[0] != "accounts"@[0]);
    assert("logs"@[0] != "discover"@[0] && "logs"@[0] != "downloads"@[0] && "logs"@[0] != "accounts"@[0]);
    assert("logs"@[0] != "settings"@[0] && "library"@[0] != "discover"@[0] && "library"@[0] != "downloads"@[0]);
    assert("library"@[0] != "accounts"@[0] && "library"@[0] != "settings"@[0]);
}

} // verus!
