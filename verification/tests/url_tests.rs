use chatgpt_desktop::url_policy::{
    classify, classify_new_window, is_allowed_url, Classification, NewWindowDecision, UrlParts,
};

fn parts_of(url_text: &str) -> UrlParts {
    let parsed = url::Url::parse(url_text).expect("test URL parses");
    UrlParts {
        scheme: parsed.scheme().to_string(),
        host: parsed.host_str().map(|h| h.to_string()),
    }
}

#[test]
fn new_window_denies_generated_uris_unconditionally() {
    assert_eq!(classify_new_window(&parts_of("blob:x")), NewWindowDecision::Deny);
    assert_eq!(classify_new_window(&parts_of("data:text/html,x")), NewWindowDecision::Deny);
}

#[test]
fn new_window_allows_the_chat_hosts_and_platform_subdomains() {
    assert_eq!(classify_new_window(&parts_of("https://chatgpt.com/abc")), NewWindowDecision::OpenInApp);
    assert_eq!(classify_new_window(&parts_of("https://chat.openai.com/")), NewWindowDecision::OpenInApp);
    assert_eq!(classify_new_window(&parts_of("https://sub.openai.com/p")), NewWindowDecision::OpenInApp);
    assert_eq!(classify_new_window(&parts_of("https://cdn.oaistatic.com/f")), NewWindowDecision::OpenInApp);
}

#[test]
fn new_window_sends_foreign_hosts_to_the_browser() {
    assert_eq!(
        classify_new_window(&parts_of("https://evil.com/chatgpt.com")),
        NewWindowDecision::OpenInBrowser
    );
    assert_eq!(
        classify_new_window(&parts_of("https://notchatgpt.com/")),
        NewWindowDecision::OpenInBrowser
    );
    assert_eq!(
        classify_new_window(&parts_of("https://evilopenai.com/")),
        NewWindowDecision::OpenInBrowser
    );
}

#[test]
fn suffix_match_requires_a_dot_boundary() {
    assert!(!is_allowed_url(&parts_of("https://xopenai.com/")));
    assert!(is_allowed_url(&parts_of("https://a.b.openai.com/")));
    assert!(is_allowed_url(&parts_of("https://files.oaiusercontent.com/doc")));
}

#[test]
fn in_page_check_allows_local_schemes() {
    for target in ["about:blank", "data:text/plain,x", "blob:y", "ws://chatgpt.com/s", "wss://chatgpt.com/s"] {
        assert!(is_allowed_url(&parts_of(target)), "{target} should stay in-app");
        assert_eq!(classify(&parts_of(target)), Classification::Allow);
    }
}

#[test]
fn in_page_check_denies_foreign_web_hosts() {
    assert_eq!(classify(&parts_of("https://example.org/")), Classification::Deny);
    assert_eq!(classify(&parts_of("http://evil.com/")), Classification::Deny);
    assert_eq!(classify(&parts_of("ftp://chatgpt.com/")), Classification::Deny);
}

#[test]
fn a_web_url_with_no_host_is_treated_as_allowed() {
    let parts = UrlParts { scheme: "https".to_string(), host: None };
    assert!(is_allowed_url(&parts));
    assert_eq!(classify_new_window(&parts), NewWindowDecision::OpenInApp);
}

#[test]
fn http_hosts_get_the_same_allow_list_as_https() {
    assert!(is_allowed_url(&parts_of("http://chatgpt.com/")));
    assert!(!is_allowed_url(&parts_of("http://example.org/")));
}
