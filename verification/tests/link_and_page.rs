use media_resolver::html::get_canonical_from_html;
use media_resolver::link::{last_piece_of, UrlParts};

#[test]
fn address_is_taken_apart() {
    let parts = UrlParts::parse("https://User@WWW.Example.com:8443/a/b%20c/?k=v%26w&k=2&e=&modal_id=7#frag").unwrap();
    assert_eq!(parts.host, Some("www.example.com".to_string()));
    assert_eq!(parts.path, "/a/b%20c/");
    assert_eq!(
        parts.query,
        vec![
            ("k".to_string(), "v&w".to_string()),
            ("k".to_string(), "2".to_string()),
            ("e".to_string(), "".to_string()),
            ("modal_id".to_string(), "7".to_string()),
        ]
    );
    assert_eq!(parts.query("k"), Some("v&w".to_string()));
    assert_eq!(parts.query("modal_id"), Some("7".to_string()));
    assert_eq!(parts.query("e"), Some("".to_string()));
    assert_eq!(parts.query("missing"), None);
    let host: String = parts.host_chars().iter().collect();
    assert_eq!(host, "www.example.com");
}

#[test]
fn address_without_host_or_scheme() {
    let parts = UrlParts::parse("mailto:someone@example.com").unwrap();
    assert_eq!(parts.host, None);
    assert_eq!(parts.path, "someone@example.com");
    assert!(parts.query.is_empty());
    assert!(parts.host_chars().is_empty());
    assert_eq!(UrlParts::parse("no scheme"), None);
    assert_eq!(UrlParts::parse("/relative/path"), None);
    assert_eq!(UrlParts::parse(""), None);
    assert_eq!(UrlParts::parse("https://"), None);
}

#[test]
fn last_piece_of_a_path() {
    let chars = |s: &str| s.chars().collect::<Vec<char>>();
    let text = |v: Vec<char>| v.into_iter().collect::<String>();
    assert_eq!(text(last_piece_of(&chars("a/b/c"), '/')), "c");
    assert_eq!(text(last_piece_of(&chars("abc"), '/')), "abc");
    assert_eq!(text(last_piece_of(&chars("a/"), '/')), "");
    assert_eq!(text(last_piece_of(&chars(""), '/')), "");
}

#[test]
fn canonical_address_is_read_from_the_markup() {
    let html = "<!doctype html><html><head><title>t</title>\n<link rel=\"stylesheet\" href=\"a.css\">\n<link href=\"https://www.douyin.com/note/7300000000000000000\" rel=\"canonical\"></head><body><link rel=\"canonical\" href=\"second\"></body></html>";
    assert_eq!(
        get_canonical_from_html(html),
        Some("https://www.douyin.com/note/7300000000000000000".to_string())
    );
    assert_eq!(get_canonical_from_html("<html><head></head></html>"), None);
    assert_eq!(get_canonical_from_html("<link rel=\"canonical\">"), None);
    assert_eq!(get_canonical_from_html("<link rel='canonical' href=''>"), Some(String::new()));
    assert_eq!(get_canonical_from_html(""), None);
    assert_eq!(get_canonical_from_html("link[rel='canonical']"), None);
}
