use rfind::pattern::{create_pattern_matcher, PatternMatcher};

fn matcher(pattern: &str) -> PatternMatcher {
    match create_pattern_matcher(pattern) {
        Ok(m) => m,
        Err(e) => panic!("pattern {:?} refused: {}", pattern, e),
    }
}

#[test]
fn test_glob_pattern_selection() {
    assert!(matches!(matcher("*.log"), PatternMatcher::Glob { .. }));
    assert!(matches!(matcher("c?t"), PatternMatcher::Glob { .. }));
    assert!(matches!(matcher("plain"), PatternMatcher::Substring { .. }));
    assert!(matches!(matcher(""), PatternMatcher::Substring { .. }));
}

#[test]
fn test_glob_matching() {
    let m = matcher("*.log");
    assert!(m.matches("test2.log"));
    assert!(m.matches("a.log"));
    assert!(!m.matches("test1.txt"));
    assert!(!m.matches("log"));

    let m = matcher("c?t");
    assert!(m.matches("cat"));
    assert!(m.matches("cut"));
    assert!(!m.matches("cart"));

    let m = matcher("sub*");
    assert!(m.matches("subdir1"));
    assert!(m.matches("subsubdir1"));
    assert!(!m.matches("dir1"));
}

#[test]
fn test_match_all_pattern() {
    // `**/*` goes through the glob branch and matches every basename.
    let m = matcher("**/*");
    assert!(matches!(m, PatternMatcher::Glob { .. }));
    for name in ["test1.txt", "subdir1", "a", ".hidden", "link_to_test1.txt"] {
        assert!(m.matches(name), "**/* should match {:?}", name);
    }
}

#[test]
fn test_substring_matching_is_case_insensitive() {
    let m = matcher("test");
    assert!(m.matches("test1.txt"));
    assert!(m.matches("MYTEST.LOG"));
    assert!(m.matches("AtEsTb"));
    assert!(!m.matches("tes.txt"));

    // The pattern itself is folded too: this fails if case folding were
    // the identity.
    let m = matcher("TeSt");
    assert!(m.matches("mytest.log"));
    assert!(m.matches("MYTEST.LOG"));
    assert!(!m.matches("nothing.here"));
}

#[test]
fn test_empty_substring_pattern_matches_everything() {
    let m = matcher("");
    assert!(m.matches("anything"));
    assert!(m.matches(""));
}

#[test]
fn test_invalid_glob_is_refused() {
    // Three stars are not a valid wildcard for the glob engine.
    assert!(create_pattern_matcher("a***b").is_err());
}
