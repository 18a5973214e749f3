use context_password::vault::tag::{best, from_body, from_uri, Tag, Verdict};
const PREFIX: &str = "app://context-password";

/// The two storage shapes must parse to identical `Tag`s for the same
/// logical body.
#[test]
fn from_body_and_from_uri_agree_on_the_same_grammar() {
    let cases: &[(&str, &str)] = &[
        ("1", "mac"),
        ("", "mac"),
        ("1?os=win", "mac"),
        ("1?os=mac", "mac"),
        ("?os=win", "mac"),
        ("1?os=win,xx", "win"),
        ("1?os=beos", "mac"),
        ("1?os=", "mac"),
        ("1?os", "mac"),
        ("1?foo=bar", "mac"),
        ("notanumber", "mac"),
    ];
    for (body, os) in cases {
        let via_body = from_body(body, os);
        let uri = format!("{PREFIX}/{body}");
        let via_uri = from_uri(&uri, PREFIX, os).unwrap();
        assert_eq!(via_body, via_uri, "mismatch for body {body:?}");
    }
}

#[test]
fn from_uri_rejects_a_prefix_collision() {
    assert!(from_uri("app://context-password-other/1", PREFIX, "mac").is_none());
    assert!(from_uri("app://context-password-other", PREFIX, "mac").is_none());
}

#[test]
fn from_uri_rejects_the_wrong_prefix_entirely() {
    assert!(from_uri("https://example.com", PREFIX, "mac").is_none());
}

#[test]
fn from_uri_tolerates_surrounding_whitespace() {
    let via_uri = from_uri("  app://context-password/1?os=mac  ", PREFIX, "mac").unwrap();
    assert_eq!(via_uri.verdict, Verdict::Show(Some(1)));
}

#[test]
fn best_prefers_show_over_bad_os_over_other_os() {
    let show = Tag { verdict: Verdict::Show(Some(1)), unknown_os: None };
    let bad = Tag { verdict: Verdict::BadOs, unknown_os: None };
    let other = Tag { verdict: Verdict::OtherOs, unknown_os: None };

    assert_eq!(best(Some(other.clone()), show.clone()).unwrap().verdict, Verdict::Show(Some(1)));
    assert_eq!(best(Some(show.clone()), bad.clone()).unwrap().verdict, Verdict::Show(Some(1)));
    assert_eq!(best(Some(other.clone()), bad.clone()).unwrap().verdict, Verdict::BadOs);
    assert_eq!(best(None, other.clone()).unwrap().verdict, Verdict::OtherOs);
}

#[test]
fn bodies_with_trailing_whitespace_agree_too() {
    for body in ["1 ", "1?os=beos\t", "1?os ", "?os=mac, ", "  ", "1?foo=bar \n"] {
        for os in ["win", "mac"] {
            let via_body = from_body(body, os);
            let uri = format!("{PREFIX}/{body}");
            let via_uri = from_uri(&uri, PREFIX, os).unwrap();
            assert_eq!(via_body, via_uri, "mismatch for body {body:?}");
        }
    }
}

#[test]
fn a_body_starting_with_a_slash_is_where_the_forms_differ() {
    let via_body = from_body("/1", "win");
    let via_uri = from_uri(&format!("{PREFIX}//1"), PREFIX, "win").unwrap();
    assert_ne!(via_body, via_uri);
}

#[test]
fn folding_best_gives_the_first_tag_of_highest_priority() {
    let tag = |verdict: Verdict| Tag { verdict, unknown_os: None };
    let tags = vec![
        tag(Verdict::OtherOs),
        tag(Verdict::BadOs),
        tag(Verdict::Show(Some(3))),
        tag(Verdict::OtherOs),
        tag(Verdict::Show(Some(1))),
    ];
    let folded = tags.iter().cloned().fold(None, best);
    assert_eq!(folded, Some(tag(Verdict::Show(Some(3)))));
    let folded = vec![tag(Verdict::OtherOs), tag(Verdict::BadOs), tag(Verdict::OtherOs)]
        .into_iter()
        .fold(None, best);
    assert_eq!(folded, Some(tag(Verdict::BadOs)));
}
