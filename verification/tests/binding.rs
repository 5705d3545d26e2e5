use re2::{Anchor, ErrorCode, Matches, Pattern};

fn _assert_matches(rex: &Pattern, text: &str, anchor: Anchor, expected: Option<Vec<String>>) {
    let mut matches: Vec<String> = Matches::new(1);
    let num = re2::matching::matches(rex, text, 0, text.len(), anchor, &mut matches);

    match expected {
        Some(expected_matches) => {
            assert_eq!(num, expected_matches.len() as isize);
            for i in 0..expected_matches.len() {
                assert_eq!(matches[i], expected_matches[i]);
            }
        }
        None => assert_eq!(num, 0),
    }
}

#[test]
fn test_compiled_matches_simple() {
    let pattern = "[a-z0-9]{5} world";
    let opt = re2::opt_new();
    let regex = re2::new(pattern, pattern.len(), &opt);

    assert_eq!(re2::error_code(&regex), ErrorCode::NO_ERROR);

    // simple matches from the beginning of the string
    _assert_matches(&regex, "hello world", Anchor::UNANCHORED, Some(vec!["hello world".to_string()]));
    _assert_matches(&regex, "fas32 world", Anchor::UNANCHORED, Some(vec!["fas32 world".to_string()]));
    _assert_matches(&regex, "ZZZZZ world", Anchor::UNANCHORED, None);

    // match in the middle of the string (because we are unanchored)
    _assert_matches(
        &regex,
        "before hello world trailing",
        Anchor::UNANCHORED,
        Some(vec!["hello world".to_string()]),
    );
    // but not if we are anchored in the beginning
    _assert_matches(&regex, "before hello world trailing", Anchor::ANCHOR_START, None);

    // clean up manually
    re2::delete(regex);
    re2::opt_delete(opt);
}

#[test]
fn test_compiled_matches_capturing_only_sub() {
    let pattern = "(ciao) salut";
    let opt = re2::opt_new();
    let regex = re2::new(pattern, pattern.len(), &opt);

    assert_eq!(re2::error_code(&regex), ErrorCode::NO_ERROR);
    assert_eq!(re2::num_capturing_groups(&regex), 1);

    // a single result slot holds the overall matched span
    let mut matches: Vec<String> = Matches::new(0);
    let rcode = re2::full_match(&regex, "ciao salut", &mut matches);

    assert_eq!(rcode, 1);
    assert_eq!(matches[0], "ciao salut".to_string());

    // clean up manually
    re2::delete(regex);
    re2::opt_delete(opt);
}

#[test]
fn test_compiled_matches_capturing() {
    let pattern = "(ciao) salut";
    let opt = re2::opt_new();
    let regex = re2::new(pattern, pattern.len(), &opt);

    assert_eq!(re2::error_code(&regex), ErrorCode::NO_ERROR);
    assert_eq!(re2::num_capturing_groups(&regex), 1);

    let mut matches: Vec<String> = Matches::new(1);
    let text = "ciao salut";
    let rcode = re2::matching::matches(&regex, text, 0, text.len(), Anchor::ANCHOR_START, &mut matches);

    assert_eq!(rcode, 1);
    assert_eq!(matches[0], "ciao salut".to_string());
    assert_eq!(matches[1], "ciao".to_string());

    // clean up manually
    re2::delete(regex);
    re2::opt_delete(opt);
}

#[test]
fn test_compiled_matches_with_flags() {
    // multiline and case insensitive
    let pattern = "(?im:hello[\\s]+[\\n]?WoRlD)";
    let opt = re2::opt_new();
    let regex = re2::new(pattern, pattern.len(), &opt);

    assert_eq!(re2::error_code(&regex), ErrorCode::NO_ERROR);
    assert_eq!(re2::num_capturing_groups(&regex), 0);

    _assert_matches(&regex, "hello WORLD!", Anchor::UNANCHORED, Some(vec!["hello WORLD".to_string()]));
    _assert_matches(
        &regex,
        "test hello\nWorLd!",
        Anchor::UNANCHORED,
        Some(vec!["hello\nWorLd".to_string()]),
    );

    // clean up manually
    re2::delete(regex);
    re2::opt_delete(opt);
}

#[test]
fn test_version_options_introspection_and_easy_match() {
    assert_eq!(re2::version_string(), "0.0".to_string());
    assert_eq!(re2::version_interface_current(), 0);
    assert_eq!(re2::version_interface_revision(), 0);
    assert_eq!(re2::version_interface_age(), 0);

    let mut opt = re2::opt_new();
    re2::opt_set_log_errors(&mut opt, 0);
    assert_eq!(re2::opt_encoding(&opt), re2::Encoding::UTF8);

    let pattern = "(world) ([0-9]+)";
    let len = pattern.len();
    let regex = re2::new(pattern, len, &opt);
    assert_eq!(re2::pattern(&regex), pattern.to_string());
    assert_eq!(re2::num_capturing_groups(&regex), 2);
    assert_eq!(re2::program_size(&regex), 16);
    assert_eq!(re2::error_code(&regex), ErrorCode::NO_ERROR);
    assert_eq!(re2::error_string(&regex), "".to_string());

    let text = "hello world 42!";
    let mut matches: Vec<String> = Matches::new(2);
    let rcode = re2::easy_match(pattern, text, &mut matches);
    assert_eq!(rcode, 1);
    assert_eq!(matches[0], "world 42".to_string());
    assert_eq!(matches[1], "world".to_string());
    assert_eq!(matches[2], "42".to_string());

    re2::delete(regex);
    re2::opt_delete(opt);
}
