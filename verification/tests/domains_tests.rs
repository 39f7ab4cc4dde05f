use proxy_core::domains::check_allow;
use proxy_core::domains::DomainSet;

fn set_of(names: &[&str]) -> DomainSet {
    let lines: Vec<String> = names.iter().map(|s| s.to_string()).collect();
    DomainSet::load(&lines)
}

#[test]
fn load_strips_leading_www() {
    let ds = set_of(&["www.example.com", "foo.org", "a.www.com"]);
    assert_eq!(ds.len(), 3);
    assert_eq!(ds.names[0], "example.com");
    assert_eq!(ds.names[1], "foo.org");
    assert_eq!(ds.names[2], "a.www.com");
}

#[test]
fn empty_set() {
    let ds = DomainSet::empty();
    assert_eq!(ds.len(), 0);
    // Blocklist mode allows everything, allowlist mode denies everything.
    assert!(check_allow(&ds, true, &"example.com".to_string()));
    assert!(!check_allow(&ds, false, &"example.com".to_string()));
}

#[test]
fn member_denied_in_restrict_mode() {
    let ds = set_of(&["example.com"]);
    assert!(!check_allow(&ds, true, &"example.com".to_string()));
}

#[test]
fn member_allowed_in_allowlist_mode() {
    let ds = set_of(&["example.com"]);
    assert!(check_allow(&ds, false, &"example.com".to_string()));
}

#[test]
fn non_member_allowed_in_restrict_mode() {
    let ds = set_of(&["example.com"]);
    assert!(check_allow(&ds, true, &"other.org".to_string()));
}

#[test]
fn non_member_denied_in_allowlist_mode() {
    let ds = set_of(&["example.com"]);
    assert!(!check_allow(&ds, false, &"other.org".to_string()));
}

#[test]
fn www_line_matches_bare_target() {
    // `www.example.com` in the list and the bare target compare equal
    // after load-time stripping.
    let ds = set_of(&["www.example.com"]);
    assert!(!check_allow(&ds, true, &"example.com".to_string()));
    assert!(check_allow(&ds, false, &"example.com".to_string()));
}
