//! Link routing: which URLs stay inside the app and which are handed to the
//! user's default browser.

use vstd::prelude::*;
use crate::text::{ends_with, str_ends_with, str_equal};

verus! {

#[verifier::external_type_specification]
#[verifier::external_body]
pub struct ExUrlParseError(url::ParseError);

/// A parsed URL by its characters.
pub struct UrlView {
    pub scheme: Seq<char>,
    pub host: Option<Seq<char>>,
    pub text: Seq<char>,
}

/// What routing reads of a URL: its scheme, its host (if it has one) and its
/// serialization.
#[derive(Debug)]
pub struct WebUrl {
    pub scheme: String,
    pub host: Option<String>,
    pub text: String,
}

impl View for WebUrl {
    type V = UrlView;

    open spec fn view(&self) -> UrlView {
        UrlView {
            scheme: self.scheme@,
            host: match self.host {
                Some(h) => Some(h@),
                None => None,
            },
            text: self.text@,
        }
    }
}

/// What `Url::parse` of the url crate gives for an input string: the scheme,
/// host and serialization of the parsed URL, or `None` where it reports an error.
pub uninterp spec fn url_from_str(input: Seq<char>) -> Option<UrlView>;

/// Calls `Url::parse` (url crate) and hands back the parsed URL's `scheme()`,
/// `host_str()` and `as_str()`. Trusted: the outcome is `url_from_str` of the
/// input, an error exactly where that is `None`.
#[verifier::external_body]
fn parse_url(input: &str) -> (r: Result<WebUrl, url::ParseError>)
    ensures
        match r {
            Ok(u) => url_from_str(input@) == Some(u@),
            Err(_) => url_from_str(input@) is None,
        },
{
    match url::Url::parse(input) {
        Ok(u) => Ok(
            WebUrl {
                scheme: u.scheme().to_string(),
                host: match u.host_str() {
                    Some(h) => Some(h.to_string()),
                    None => None,
                },
                text: u.as_str().to_string(),
            },
        ),
        Err(e) => Err(e),
    }
}

impl WebUrl {
    /// Parses an absolute URL; `None` where it is not one.
    pub fn parse(input: &str) -> (r: Option<WebUrl>)
        ensures
            match r {
                Some(u) => url_from_str(input@) == Some(u@),
                None => url_from_str(input@) is None,
            },
    {
        match parse_url(input) {
            Ok(u) => Some(u),
            Err(_) => None,
        }
    }
}

/// The page every tab starts on.
pub const START_URL: &'static str = "https://github.com/matthewkeating?tab=repositories";

/// The page every tab starts on, parsed.
pub fn start_url() -> (r: Option<WebUrl>)
    ensures
        match r {
            Some(u) => url_from_str(START_URL@) == Some(u@),
            None => url_from_str(START_URL@) is None,
        },
{
    WebUrl::parse(START_URL)
}

/// The hosts that belong to the site: GitHub and its asset hosts, with their subdomains.
pub open spec fn site_host(host: Seq<char>) -> bool {
    ||| host == "github.com"@
    ||| ends_with(host, ".github.com"@)
    ||| host == "githubusercontent.com"@
    ||| ends_with(host, ".githubusercontent.com"@)
    ||| host == "githubassets.com"@
    ||| ends_with(host, ".githubassets.com"@)
}

/// The URL points at the site or one of its asset hosts.
pub open spec fn spec_is_github_host(u: UrlView) -> bool {
    match u.host {
        Some(h) => site_host(h),
        None => false,
    }
}

/// The URL's scheme is http or https.
pub open spec fn spec_is_http(u: UrlView) -> bool {
    u.scheme == "http"@ || u.scheme == "https"@
}

fn equal_or_ends_with(host: &str, domain: &str, dotted: &str) -> (r: bool)
    ensures
        r == (host@ == domain@ || ends_with(host@, dotted@)),
{
    str_equal(host, domain) || str_ends_with(host, dotted)
}

/// True when the URL points at GitHub or one of its asset hosts, i.e. it
/// should stay inside the app rather than opening in the system browser.
pub fn is_github_host(url: &WebUrl) -> (r: bool)
    ensures
        r == spec_is_github_host(url@),
{
    match &url.host {
        Some(host) => {
            let h = host.as_str();
            equal_or_ends_with(h, "github.com", ".github.com") || equal_or_ends_with(
                h,
                "githubusercontent.com",
                ".githubusercontent.com",
            ) || equal_or_ends_with(h, "githubassets.com", ".githubassets.com")
        },
        None => false,
    }
}

/// Only http(s) links are candidates for handoff to the browser; schemes like
/// `blob:`, `data:` and `about:` are page internals and must be left alone.
pub fn is_http(url: &WebUrl) -> (r: bool)
    ensures
        r == spec_is_http(url@),
{
    let s = url.scheme.as_str();
    str_equal(s, "http") || str_equal(s, "https")
}

/// What to do with a same-window navigation.
#[derive(Clone, Copy, Debug, PartialEq, Eq, Structural)]
pub enum NavigationAction {
    /// Let the tab navigate.
    Allow,
    /// Cancel the navigation and open the URL in the default browser.
    OpenExternally,
}

/// What to do with a `window.open` / `target="_blank"` request. The webview's
/// own new window is always denied.
#[derive(Clone, Copy, Debug, PartialEq, Eq, Structural)]
pub enum NewWindowAction {
    /// Open the URL in a new in-app tab.
    OpenTab,
    /// Open the URL in the default browser.
    OpenExternally,
    /// Do nothing.
    Ignore,
}

/// The route of a same-window navigation.
pub open spec fn spec_navigation_action(u: UrlView) -> NavigationAction {
    if spec_is_github_host(u) || !spec_is_http(u) {
        NavigationAction::Allow
    } else {
        NavigationAction::OpenExternally
    }
}

/// The route of a new-window request.
pub open spec fn spec_new_window_action(u: UrlView) -> NewWindowAction {
    if spec_is_github_host(u) {
        NewWindowAction::OpenTab
    } else if spec_is_http(u) {
        NewWindowAction::OpenExternally
    } else {
        NewWindowAction::Ignore
    }
}

/// Same-window navigation: keep the site (and non-http schemes) in-app, send
/// the rest to the browser.
pub fn navigation_action(url: &WebUrl) -> (r: NavigationAction)
    ensures
        r == spec_navigation_action(url@),
{
    if is_github_host(url) || !is_http(url) {
        NavigationAction::Allow
    } else {
        NavigationAction::OpenExternally
    }
}

/// New-window requests: the site opens a new in-app tab, other http(s) links
/// go to the browser, anything else is dropped.
pub fn new_window_action(url: &WebUrl) -> (r: NewWindowAction)
    ensures
        r == spec_new_window_action(url@),
{
    if is_github_host(url) {
        NewWindowAction::OpenTab
    } else if is_http(url) {
        NewWindowAction::OpenExternally
    } else {
        NewWindowAction::Ignore
    }
}

/// The two routes agree: a link goes to the default browser from a
/// new-window request exactly when it does from a same-window navigation,
/// and a link that opens an in-app tab may also be navigated to in place.
pub proof fn lemma_routes_agree(u: UrlView)
    ensures
        (spec_new_window_action(u) == NewWindowAction::OpenExternally) <==> (
        spec_navigation_action(u) == NavigationAction::OpenExternally),
        spec_new_window_action(u) == NewWindowAction::OpenTab ==> spec_navigation_action(u)
            == NavigationAction::Allow,
        spec_new_window_action(u) == NewWindowAction::Ignore ==> spec_navigation_action(u)
            == NavigationAction::Allow,
{
}

/// Every subdomain of GitHub or of its asset hosts belongs to the site.
pub proof fn lemma_subdomains_stay_in_app(label: Seq<char>)
    ensures
        site_host(label + ".github.com"@),
        site_host(label + ".githubusercontent.com"@),
        site_host(label + ".githubassets.com"@),
{
    lemma_ends_with_concat(label, ".github.com"@);
    lemma_ends_with_concat(label, ".githubusercontent.com"@);
    lemma_ends_with_concat(label, ".githubassets.com"@);
}

proof fn lemma_ends_with_concat(p: Seq<char>, s: Seq<char>)
    ensures
        ends_with(p + s, s),
{
    assert((p + s).subrange(p.len() as int, (p + s).len() as int) =~= s);
}

/// A host belongs to the site exactly when it is `github.com`,
/// `githubusercontent.com` or `githubassets.com`, or a subdomain of one of
/// them (the domain preceded by a dot); no other host does.
pub proof fn lemma_site_hosts_exactly(h: Seq<char>)
    ensures
        site_host(h) <==> (h == "github.com"@ || ends_with(h, "."@ + "github.com"@) || h
            == "githubusercontent.com"@ || ends_with(h, "."@ + "githubusercontent.com"@) || h
            == "githubassets.com"@ || ends_with(h, "."@ + "githubassets.com"@)),
{
    reveal_strlit(".");
    reveal_strlit("github.com");
    reveal_strlit(".github.com");
    reveal_strlit("githubusercontent.com");
    reveal_strlit(".githubusercontent.com");
    reveal_strlit("githubassets.com");
    reveal_strlit(".githubassets.com");
    assert("."@ + "github.com"@ =~= ".github.com"@);
    assert("."@ + "githubusercontent.com"@ =~= ".githubusercontent.com"@);
    assert("."@ + "githubassets.com"@ =~= ".githubassets.com"@);
}

/// Every link is routed by its scheme and host alone:
/// - a link to the site stays in the tab and, as a new window, opens an in-app tab;
/// - any other `http` or `https` link goes to the default browser on both routes;
/// - a link with any other scheme (`blob:`, `data:`, `about:`, ...) that is
///   not on the site stays with the page and is dropped as a new window.
pub proof fn lemma_routing_outcome(u: UrlView)
    ensures
        spec_is_github_host(u) <==> (match u.host {
            Some(h) => site_host(h),
            None => false,
        }),
        spec_is_http(u) <==> (u.scheme == "http"@ || u.scheme == "https"@),
        spec_is_github_host(u) ==> spec_navigation_action(u) == NavigationAction::Allow
            && spec_new_window_action(u) == NewWindowAction::OpenTab,
        !spec_is_github_host(u) && (u.scheme == "http"@ || u.scheme == "https"@)
            ==> spec_navigation_action(u) == NavigationAction::OpenExternally
            && spec_new_window_action(u) == NewWindowAction::OpenExternally,
        !spec_is_github_host(u) && u.scheme != "http"@ && u.scheme != "https"@
            ==> spec_navigation_action(u) == NavigationAction::Allow && spec_new_window_action(u)
            == NewWindowAction::Ignore,
{
}

} // verus!
