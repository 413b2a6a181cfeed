use tabbed_web_app::routing::{
    is_github_host, is_http, navigation_action, new_window_action, start_url, NavigationAction,
    NewWindowAction, WebUrl, START_URL,
};

fn url(s: &str) -> WebUrl {
    WebUrl::parse(s).expect("test URL parses")
}

#[test]
fn parse_reads_scheme_host_and_text() {
    let u = url("HTTPS://GitHub.com/rust-lang");
    assert_eq!(u.scheme, "https");
    assert_eq!(u.host.as_deref(), Some("github.com"));
    assert_eq!(u.text, "https://github.com/rust-lang");
}

#[test]
fn parse_rejects_relative_and_garbage() {
    assert!(WebUrl::parse("not a url").is_none());
    assert!(WebUrl::parse("/relative/path").is_none());
    assert!(WebUrl::parse("").is_none());
}

#[test]
fn start_url_is_a_github_page() {
    let u = start_url().expect("start URL parses");
    assert_eq!(u.host.as_deref(), Some("github.com"));
    assert_eq!(u.text, START_URL);
    assert!(is_github_host(&u));
}

#[test]
fn github_and_asset_hosts_stay_in_app() {
    for s in [
        "https://github.com/",
        "https://gist.github.com/x",
        "https://githubusercontent.com/",
        "https://raw.githubusercontent.com/a/b",
        "https://githubassets.com/",
        "https://avatars.githubassets.com/u/1",
        "http://a.b.github.com/",
    ] {
        let u = url(s);
        assert!(is_github_host(&u), "{s}");
        assert_eq!(navigation_action(&u), NavigationAction::Allow, "{s}");
        assert_eq!(new_window_action(&u), NewWindowAction::OpenTab, "{s}");
    }
}

#[test]
fn look_alike_hosts_go_to_the_browser() {
    for s in [
        "https://notgithub.com/",
        "https://github.com.evil.org/",
        "https://example.com/github.com",
        "https://githubassets.co/",
        "https://xgithubusercontent.com/",
    ] {
        let u = url(s);
        assert!(!is_github_host(&u), "{s}");
        assert!(is_http(&u), "{s}");
        assert_eq!(navigation_action(&u), NavigationAction::OpenExternally, "{s}");
        assert_eq!(new_window_action(&u), NewWindowAction::OpenExternally, "{s}");
    }
}

#[test]
fn page_internal_schemes_are_left_alone() {
    for s in [
        "blob:https://example.com/1234",
        "data:text/plain,hello",
        "about:blank",
        "mailto:someone@example.com",
    ] {
        let u = url(s);
        assert!(!is_http(&u), "{s}");
        assert!(!is_github_host(&u), "{s}");
        assert_eq!(navigation_action(&u), NavigationAction::Allow, "{s}");
        assert_eq!(new_window_action(&u), NewWindowAction::Ignore, "{s}");
    }
}

#[test]
fn non_http_github_host_opens_a_tab() {
    let u = url("ftp://github.com/file");
    assert!(!is_http(&u));
    assert!(is_github_host(&u));
    assert_eq!(navigation_action(&u), NavigationAction::Allow);
    assert_eq!(new_window_action(&u), NewWindowAction::OpenTab);
}

#[test]
fn hand_built_urls_route_by_their_fields() {
    let u = WebUrl {
        scheme: "https".to_string(),
        host: None,
        text: "https://".to_string(),
    };
    assert!(!is_github_host(&u));
    assert_eq!(navigation_action(&u), NavigationAction::OpenExternally);
    let v = WebUrl {
        scheme: "HTTP".to_string(),
        host: Some("example.com".to_string()),
        text: String::new(),
    };
    assert!(!is_http(&v));
    assert_eq!(navigation_action(&v), NavigationAction::Allow);
}

#[test]
fn both_routes_send_the_same_links_out() {
    for s in [
        "https://github.com/",
        "https://example.com/",
        "data:,x",
        "http://docs.githubassets.com/",
    ] {
        let u = url(s);
        let out_nav = navigation_action(&u) == NavigationAction::OpenExternally;
        let out_win = new_window_action(&u) == NewWindowAction::OpenExternally;
        assert_eq!(out_nav, out_win, "{s}");
    }
}
