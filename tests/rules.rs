use ad_proxy::rules::{
    contains_ad_marker, element_action, proxy_target, rewrite_link, rewritten_attribute,
    same_text, starts_with_http_prefix, ElementAction, PROXY_BASE,
};

#[test]
fn ad_marker_found_anywhere_in_value() {
    assert!(contains_ad_marker("ad"));
    assert!(contains_ad_marker("ad-banner"));
    assert!(contains_ad_marker("header"));
    assert!(contains_ad_marker("gradient"));
    assert!(contains_ad_marker("top load"));
}

#[test]
fn ad_marker_absent() {
    assert!(!contains_ad_marker(""));
    assert!(!contains_ad_marker("a"));
    assert!(!contains_ad_marker("d"));
    assert!(!contains_ad_marker("da"));
    assert!(!contains_ad_marker("AD"));
    assert!(!contains_ad_marker("a d"));
    assert!(!contains_ad_marker("navigation"));
}

#[test]
fn http_prefix_detection() {
    assert!(starts_with_http_prefix("http://example.com"));
    assert!(starts_with_http_prefix("https://example.com"));
    assert!(starts_with_http_prefix("http"));
    assert!(starts_with_http_prefix("httpfoo"));
    assert!(!starts_with_http_prefix("htt"));
    assert!(!starts_with_http_prefix("/local.png"));
    assert!(!starts_with_http_prefix("mailto:a@b.c"));
    assert!(!starts_with_http_prefix("HTTP://example.com"));
    assert!(!starts_with_http_prefix(""));
}

#[test]
fn proxy_target_embeds_value_verbatim() {
    assert_eq!(
        proxy_target(PROXY_BASE, "http://example.com/a b?x=1&y=2"),
        "/proxy?url=http://example.com/a b?x=1&y=2"
    );
    assert_eq!(proxy_target("", "v"), "?url=v");
}

#[test]
fn rewrite_link_only_for_http_values() {
    assert_eq!(
        rewrite_link(PROXY_BASE, "https://example.com/x"),
        Some("/proxy?url=https://example.com/x".to_string())
    );
    assert_eq!(rewrite_link(PROXY_BASE, "/local.png"), None);
    assert_eq!(rewrite_link(PROXY_BASE, "#top"), None);
    assert_eq!(rewrite_link(PROXY_BASE, "javascript:void(0)"), None);
}

#[test]
fn rewritten_attribute_values() {
    assert_eq!(
        rewritten_attribute(PROXY_BASE, "http://example.com"),
        "/proxy?url=http://example.com"
    );
    assert_eq!(rewritten_attribute(PROXY_BASE, "/local.png"), "/local.png");
    assert_eq!(rewritten_attribute(PROXY_BASE, "mailto:x@y.z"), "mailto:x@y.z");
}

#[test]
fn rewriting_twice_changes_nothing_more() {
    for v in ["http://example.com", "https://a.b/c", "/local.png", "", "httpx"] {
        let once = rewritten_attribute(PROXY_BASE, v);
        let twice = rewritten_attribute(PROXY_BASE, &once);
        assert_eq!(once, twice);
    }
}

#[test]
fn same_text_compares_characters() {
    assert!(same_text("img", "img"));
    assert!(same_text("", ""));
    assert!(!same_text("img", "im"));
    assert!(!same_text("a", "b"));
}

fn set(name: &str, value: &str) -> (String, String) {
    (name.to_string(), value.to_string())
}

fn as_set(a: ElementAction) -> Option<(String, String)> {
    match a {
        ElementAction::SetAttribute { name, value } => Some((name, value)),
        _ => None,
    }
}

#[test]
fn anchor_with_http_href_is_rewritten() {
    let a = element_action(PROXY_BASE, "a", None, None, Some("http://example.com"), None);
    assert_eq!(as_set(a), Some(set("href", "/proxy?url=http://example.com")));
}

#[test]
fn image_with_http_src_is_rewritten() {
    let a = element_action(PROXY_BASE, "img", None, None, None, Some("https://cdn.x/p.png"));
    assert_eq!(as_set(a), Some(set("src", "/proxy?url=https://cdn.x/p.png")));
}

#[test]
fn image_with_local_src_is_kept() {
    let a = element_action(PROXY_BASE, "img", None, None, None, Some("/local.png"));
    assert!(matches!(a, ElementAction::Keep));
}

#[test]
fn element_with_ad_class_is_removed() {
    let a = element_action(PROXY_BASE, "div", Some("ad-banner"), None, None, None);
    assert!(matches!(a, ElementAction::Remove));
}

#[test]
fn element_with_ad_id_is_removed() {
    let a = element_action(PROXY_BASE, "section", None, Some("header"), None, None);
    assert!(matches!(a, ElementAction::Remove));
}

#[test]
fn ad_anchor_is_removed_not_rewritten() {
    let a = element_action(PROXY_BASE, "a", Some("adlink"), None, Some("http://x.y"), None);
    assert!(matches!(a, ElementAction::Remove));
}

#[test]
fn link_attribute_depends_on_tag() {
    let a = element_action(PROXY_BASE, "a", None, None, None, Some("http://x.y"));
    assert!(matches!(a, ElementAction::Keep));
    let b = element_action(PROXY_BASE, "img", None, None, Some("http://x.y"), None);
    assert!(matches!(b, ElementAction::Keep));
    let c = element_action(PROXY_BASE, "link", None, None, Some("http://x.y"), None);
    assert!(matches!(c, ElementAction::Keep));
}

#[test]
fn plain_element_is_kept() {
    let a = element_action(PROXY_BASE, "p", Some("intro"), Some("main"), None, None);
    assert!(matches!(a, ElementAction::Keep));
}
