use media_resolver::parser::utils::{
    decimal_string, generate_fixed_length_numeric_id, link_of, numeric_id, rand_seq,
    regexp_match_url_from_string, zero_padded_decimal, LETTERS,
};

fn by_regex(text: &str) -> Option<String> {
    let re = regex::Regex::new(r"http[s]?://[a-zA-Z0-9\.\-_/\?=&%]+").unwrap();
    re.find(text).map(|m| m.as_str().to_string())
}

#[test]
fn url_is_taken_out_of_share_text() {
    assert_eq!(
        regexp_match_url_from_string("看看这个 https://v.example.com/abcXYZ/ 超好看"),
        Some("https://v.example.com/abcXYZ/".to_string())
    );
}

#[test]
fn url_may_be_the_whole_text() {
    assert_eq!(
        regexp_match_url_from_string("http://a.b/c?d=e&f=%20"),
        Some("http://a.b/c?d=e&f=%20".to_string())
    );
}

#[test]
fn text_without_url_gives_none() {
    assert_eq!(regexp_match_url_from_string("no link here"), None);
    assert_eq!(regexp_match_url_from_string(""), None);
    assert_eq!(regexp_match_url_from_string("https://"), None);
    assert_eq!(regexp_match_url_from_string("http:// x"), None);
}

#[test]
fn first_of_two_urls_is_taken() {
    assert_eq!(
        regexp_match_url_from_string("a http://one.example/x b https://two.example/y"),
        Some("http://one.example/x".to_string())
    );
}

#[test]
fn url_ends_at_the_first_character_that_no_link_holds() {
    assert_eq!(
        regexp_match_url_from_string("see https://v.douyin.com/iANyYmXn/,copy it"),
        Some("https://v.douyin.com/iANyYmXn/".to_string())
    );
    assert_eq!(
        regexp_match_url_from_string("xhttps://a.b#frag"),
        Some("https://a.b".to_string())
    );
}

#[test]
fn url_extraction_agrees_with_the_pattern() {
    let samples = [
        "看看这个 https://v.example.com/abcXYZ/ 超好看",
        "httphttp://x.y/z",
        "https:/ /broken https://ok.example/1",
        "http://",
        "HTTP://upper.example/",
        "prefix-https://a-b_c.d/e?f=g&h=%41 suffix",
        "https://https://twice.example",
        "httpss://no http://yes.example",
        "",
        "7.43 复制打开抖音，看看【某某的作品】 https://v.douyin.com/aiozpqHvSIg/ a@b.cd",
    ];
    for sample in samples {
        assert_eq!(regexp_match_url_from_string(sample), by_regex(sample), "{}", sample);
    }
}

#[test]
fn link_of_text_without_url_is_the_text() {
    assert_eq!(link_of("b23.tv/abc"), "b23.tv/abc");
    assert_eq!(link_of("go to https://b23.tv/abc now"), "https://b23.tv/abc");
}

#[test]
fn random_token_has_the_length_asked_for() {
    let token = rand_seq(64);
    assert_eq!(token.chars().count(), 64);
    assert!(token.chars().all(|c| LETTERS.contains(c)));
    assert_eq!(rand_seq(0), "");
}

#[test]
fn random_tokens_differ() {
    assert_ne!(rand_seq(64), rand_seq(64));
}

#[test]
fn numeric_id_has_fixed_length() {
    for _ in 0..50 {
        let id = generate_fixed_length_numeric_id(15);
        assert_eq!(id.len(), 15);
        assert!(id.chars().all(|c| c.is_ascii_digit()));
    }
    assert_eq!(generate_fixed_length_numeric_id(19).len(), 19);
    assert_eq!(generate_fixed_length_numeric_id(1).len(), 1);
}

#[test]
fn numeric_id_of_length_zero_is_a_single_zero() {
    assert_eq!(generate_fixed_length_numeric_id(0), "0");
}

#[test]
fn decimal_text_of_integers() {
    assert_eq!(decimal_string(0), "0");
    assert_eq!(decimal_string(1234567890), "1234567890");
    assert_eq!(decimal_string(-42), "-42");
    assert_eq!(decimal_string(i64::MAX), i64::MAX.to_string());
    assert_eq!(decimal_string(i64::MIN), i64::MIN.to_string());
}

#[test]
fn zero_padding_fills_up_to_the_width() {
    assert_eq!(zero_padded_decimal(42, 5), "00042");
    assert_eq!(zero_padded_decimal(42, 2), "42");
    assert_eq!(zero_padded_decimal(12345, 3), "12345");
    assert_eq!(zero_padded_decimal(0, 0), "0");
    assert_eq!(zero_padded_decimal(7, 15), format!("{:015}", 7));
}

#[test]
fn numeric_identifier_is_digits_and_nothing_else() {
    let is = |s: &str| numeric_id(&s.chars().collect::<Vec<char>>());
    assert!(is("7464082269229042971"));
    assert!(is("0"));
    assert!(!is(""));
    assert!(!is("12a"));
    assert!(!is("-12"));
    assert!(!is("１２"));
    assert!(!is("www.ixigua.com"));
}
