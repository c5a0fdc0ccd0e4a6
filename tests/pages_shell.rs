use bitsacco_server::{dashboard_metrics, Page};

#[test]
fn unmapped_path_renders_not_found() {
    assert_eq!(Page::from_path("/nowhere"), Page::NotFound);
    assert_eq!(Page::from_path("/dashboard/extra"), Page::NotFound);
    assert_eq!(Page::from_path(""), Page::NotFound);
    assert_eq!(Page::from_path("/Login"), Page::NotFound);
    assert_eq!(Page::NotFound.heading(), Some("404"));
    assert!(Page::NotFound.shell().is_none());
}

#[test]
fn mapped_paths() {
    assert_eq!(Page::from_path("/"), Page::Login);
    assert_eq!(Page::from_path("/login"), Page::Login);
    assert_eq!(Page::from_path("/signup"), Page::Signup);
    assert_eq!(Page::from_path("/dashboard"), Page::Dashboard);
    assert_eq!(Page::from_path("/settings"), Page::Settings);
    assert_eq!(Page::from_path("/members"), Page::Members);
    assert_eq!(Page::from_path("/groups"), Page::Groups);
    assert_eq!(Page::from_path("/shares"), Page::Shares);
    assert_eq!(Page::from_path("/health"), Page::Health);
}

#[test]
fn document_titles_and_layout() {
    assert_eq!(Page::Login.title(), Some("Sign In - BitsaccoServer"));
    assert_eq!(Page::Signup.title(), Some("Sign Up - BitsaccoServer"));
    assert_eq!(Page::Shares.title(), Some("Shares - BitsaccoServer"));
    assert_eq!(Page::Health.title(), Some("System Health - BitsaccoServer"));
    assert_eq!(Page::NotFound.title(), None);
    assert!(Page::Dashboard.uses_app_layout());
    assert!(!Page::Login.uses_app_layout());
    let shell = Page::Members.shell().unwrap();
    assert_eq!(shell.title, "Members - BitsaccoServer");
    assert_eq!(shell.stylesheet, "/assets/styles.css");
    assert_eq!(shell.charset, "utf-8");
    assert_eq!(shell.viewport, "width=device-width, initial-scale=1");
    assert!(shell.inline_css.contains("box-sizing: border-box"));
    assert!(shell.app_layout);
    assert!(!Page::Signup.shell().unwrap().app_layout);
}

#[test]
fn health_page_heading() {
    assert_eq!(Page::Health.heading(), Some("System Health"));
    assert_eq!(Page::Groups.heading(), None);
}

#[test]
fn health_page_has_document_shell() {
    let shell = Page::from_path("/health").shell().unwrap();
    assert_eq!(shell.title, "System Health - BitsaccoServer");
    assert_eq!(shell.charset, "utf-8");
    assert_eq!(shell.viewport, "width=device-width, initial-scale=1");
    assert_eq!(shell.stylesheet, "/assets/styles.css");
    assert!(shell.inline_css.contains("font-family: 'Inter', system-ui, sans-serif;"));
    assert!(!shell.app_layout);
}

#[test]
fn every_mapped_path_has_a_shell() {
    for p in ["/", "/login", "/signup", "/dashboard", "/settings", "/members", "/groups", "/shares", "/health"] {
        assert!(Page::from_path(p).shell().is_some(), "{p}");
    }
}

#[test]
fn dashboard_metrics_in_order() {
    let m: Vec<(&str, &str)> = dashboard_metrics().iter().map(|m| (m.label, m.value)).collect();
    assert_eq!(
        m,
        vec![("Total Members", "1,247"), ("Total Value", "$2.3M"), ("Active Offers", "23")]
    );
}
