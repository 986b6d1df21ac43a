use go_magic_desktop::links::{external_link_target, stays_in_app, web_link_target, LinkRefusal};

#[test]
fn web_links_are_handed_on_as_the_parser_writes_them() {
    assert_eq!(
        external_link_target("https://example.com"),
        Ok("https://example.com/".to_string())
    );
    assert_eq!(
        external_link_target("HTTP://Example.COM/a?b=c"),
        Ok("http://example.com/a?b=c".to_string())
    );
}

#[test]
fn other_links_are_refused() {
    assert_eq!(
        external_link_target("file:///etc/passwd"),
        Err(LinkRefusal::NotWeb)
    );
    assert_eq!(
        external_link_target("javascript:alert(1)"),
        Err(LinkRefusal::NotWeb)
    );
    assert_eq!(
        external_link_target("not a url"),
        Err(LinkRefusal::Unparsable)
    );
    assert_eq!(external_link_target(""), Err(LinkRefusal::Unparsable));
}

#[test]
fn the_verdict_follows_the_parsed_scheme() {
    assert_eq!(
        web_link_target(Some(("https".to_string(), "https://a/".to_string()))),
        Ok("https://a/".to_string())
    );
    assert_eq!(
        web_link_target(Some(("ftp".to_string(), "ftp://a/".to_string()))),
        Err(LinkRefusal::NotWeb)
    );
    assert_eq!(web_link_target(None), Err(LinkRefusal::Unparsable));
}

#[test]
fn only_the_local_backend_stays_in_the_window() {
    assert!(stays_in_app(Some("127.0.0.1")));
    assert!(stays_in_app(Some("localhost")));
    assert!(!stays_in_app(Some("example.com")));
    assert!(!stays_in_app(Some("127.0.0.2")));
    assert!(!stays_in_app(Some("")));
    assert!(!stays_in_app(None));
}
