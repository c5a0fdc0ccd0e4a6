use vstd::prelude::*;
use crate::text::same_text;

verus! {

/// The pages that the browser can navigate to.
#[derive(Clone, Copy, Debug, PartialEq, Eq, Structural)]
pub enum Page {
    Login,
    Signup,
    Dashboard,
    Settings,
    Members,
    Groups,
    Shares,
    Health,
    NotFound,
}

/// The page mapped to a path, if any: paths match whole, and `/` is the
/// sign-in page.
pub open spec fn mapped_page(path: Seq<char>) -> Option<Page> {
    if path == "/"@ || path == "/login"@ {
        Some(Page::Login)
    } else if path == "/signup"@ {
        Some(Page::Signup)
    } else if path == "/dashboard"@ {
        Some(Page::Dashboard)
    } else if path == "/settings"@ {
        Some(Page::Settings)
    } else if path == "/members"@ {
        Some(Page::Members)
    } else if path == "/groups"@ {
        Some(Page::Groups)
    } else if path == "/shares"@ {
        Some(Page::Shares)
    } else if path == "/health"@ {
        Some(Page::Health)
    } else {
        None
    }
}

/// The page rendered for a path: the mapped one, else the not-found page.
pub open spec fn page_of(path: Seq<char>) -> Page {
    match mapped_page(path) {
        Some(p) => p,
        None => Page::NotFound,
    }
}

/// The document title of the pages that render a full document: every
/// mapped page.
pub open spec fn title_of(p: Page) -> Option<Seq<char>> {
    match p {
        Page::Login => Some("Sign In - BitsaccoServer"@),
        Page::Signup => Some("Sign Up - BitsaccoServer"@),
        Page::Dashboard => Some("Dashboard - BitsaccoServer"@),
        Page::Settings => Some("Settings - BitsaccoServer"@),
        Page::Members => Some("Members - BitsaccoServer"@),
        Page::Groups => Some("Groups - BitsaccoServer"@),
        Page::Shares => Some("Shares - BitsaccoServer"@),
        Page::Health => Some("System Health - BitsaccoServer"@),
        Page::NotFound => None,
    }
}

/// The pages whose content sits inside the application layout: the member,
/// group, share, settings and dashboard pages.
pub open spec fn in_app_layout(p: Page) -> bool {
    match p {
        Page::Dashboard | Page::Settings | Page::Members | Page::Groups | Page::Shares => true,
        _ => false,
    }
}

/// The main heading of the pages whose content this crate describes.
pub open spec fn heading_of(p: Page) -> Option<Seq<char>> {
    match p {
        Page::Health => Some("System Health"@),
        Page::NotFound => Some("404"@),
        _ => None,
    }
}

/// What a full document page puts in its head and how it frames its content.
pub struct DocumentShell {
    pub title: &'static str,
    pub charset: &'static str,
    pub viewport: &'static str,
    pub stylesheet: &'static str,
    pub inline_css: &'static str,
    pub app_layout: bool,
}

pub const CHARSET: &'static str = "utf-8";

pub const VIEWPORT: &'static str = "width=device-width, initial-scale=1";

pub const STYLESHEET: &'static str = "/assets/styles.css";

pub const RESET_CSS: &'static str = "
                    * { box-sizing: border-box; margin: 0; padding: 0; }
                    body { font-family: 'Inter', system-ui, sans-serif; }
                    ";

impl Page {
    /// The page rendered when the browser navigates to `path`.
    pub fn from_path(path: &str) -> (r: Page)
        ensures
            r == page_of(path@),
    {
        if same_text(path, "/") || same_text(path, "/login") {
            Page::Login
        } else if same_text(path, "/signup") {
            Page::Signup
        } else if same_text(path, "/dashboard") {
            Page::Dashboard
        } else if same_text(path, "/settings") {
            Page::Settings
        } else if same_text(path, "/members") {
            Page::Members
        } else if same_text(path, "/groups") {
            Page::Groups
        } else if same_text(path, "/shares") {
            Page::Shares
        } else if same_text(path, "/health") {
            Page::Health
        } else {
            Page::NotFound
        }
    }

    /// The document title, for the pages that render a full document.
    pub fn title(&self) -> (r: Option<&'static str>)
        ensures
            r matches Some(t) ==> title_of(*self) == Some(t@),
            r is None <==> title_of(*self) is None,
    {
        match self {
            Page::Login => Some("Sign In - BitsaccoServer"),
            Page::Signup => Some("Sign Up - BitsaccoServer"),
            Page::Dashboard => Some("Dashboard - BitsaccoServer"),
            Page::Settings => Some("Settings - BitsaccoServer"),
            Page::Members => Some("Members - BitsaccoServer"),
            Page::Groups => Some("Groups - BitsaccoServer"),
            Page::Shares => Some("Shares - BitsaccoServer"),
            Page::Health => Some("System Health - BitsaccoServer"),
            Page::NotFound => None,
        }
    }

    /// Whether the page's content sits inside the application layout.
    pub fn uses_app_layout(&self) -> (r: bool)
        ensures
            r == in_app_layout(*self),
    {
        match self {
            Page::Dashboard | Page::Settings | Page::Members | Page::Groups | Page::Shares => true,
            _ => false,
        }
    }

    /// The main heading, for the pages whose content this crate describes.
    pub fn heading(&self) -> (r: Option<&'static str>)
        ensures
            r matches Some(h) ==> heading_of(*self) == Some(h@),
            r is None <==> heading_of(*self) is None,
    {
        match self {
            Page::Health => Some("System Health"),
            Page::NotFound => Some("404"),
            _ => None,
        }
    }

    /// The document shell of a full document page: its title, the shared
    /// head entries and whether the application layout frames the content.
    pub fn shell(&self) -> (r: Option<DocumentShell>)
        ensures
            r is None <==> title_of(*self) is None,
            r matches Some(s) ==> {
                &&& title_of(*self) == Some(s.title@)
                &&& s.charset@ == CHARSET@
                &&& s.viewport@ == VIEWPORT@
                &&& s.stylesheet@ == STYLESHEET@
                &&& s.inline_css@ == RESET_CSS@
                &&& s.app_layout == in_app_layout(*self)
            },
    {
        match self.title() {
            Some(title) => Some(
                DocumentShell {
                    title,
                    charset: CHARSET,
                    viewport: VIEWPORT,
                    stylesheet: STYLESHEET,
                    inline_css: RESET_CSS,
                    app_layout: self.uses_app_layout(),
                },
            ),
            None => None,
        }
    }
}

/// A path that no page is mapped to renders the not-found page, whose
/// heading is "404".
pub proof fn lemma_unmapped_path_not_found(path: Seq<char>)
    requires
        mapped_page(path) is None,
    ensures
        page_of(path) == Page::NotFound,
        heading_of(page_of(path)) == Some("404"@),
{
}

/// One figure of the dashboard overview.
pub struct DashboardMetric {
    pub label: &'static str,
    pub value: &'static str,
}

/// The label and value of each figure of the dashboard overview, in order.
pub open spec fn dashboard_rows() -> Seq<(Seq<char>, Seq<char>)> {
    seq![
        ("Total Members"@, "1,247"@),
        ("Total Value"@, "$2.3M"@),
        ("Active Offers"@, "23"@),
    ]
}

pub open spec fn metric_row_of(m: DashboardMetric) -> (Seq<char>, Seq<char>) {
    (m.label@, m.value@)
}

/// The figures of the dashboard overview.
pub fn dashboard_metrics() -> (r: Vec<DashboardMetric>)
    ensures
        r@.map_values(|m: DashboardMetric| metric_row_of(m)) == dashboard_rows(),
{
    let r = vec![
        DashboardMetric { label: "Total Members", value: "1,247" },
        DashboardMetric { label: "Total Value", value: "$2.3M" },
        DashboardMetric { label: "Active Offers", value: "23" },
    ];
    assert(r@.map_values(|m: DashboardMetric| metric_row_of(m)) =~= dashboard_rows());
    r
}

/// Every path that a page is mapped to renders a full document: its shell
/// holds a title, and so the shared head entries.
pub proof fn lemma_mapped_paths_have_shell(path: Seq<char>)
    requires
        mapped_page(path) is Some,
    ensures
        page_of(path) != Page::NotFound,
        title_of(page_of(path)) is Some,
{
}

} // verus!
