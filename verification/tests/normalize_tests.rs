use proxy_core::normalize::normalize_target;
use proxy_core::normalize::strip_www;

#[test]
fn strips_port_suffix() {
    assert_eq!(normalize_target("example.com:443"), "example.com");
}

#[test]
fn strips_www_prefix() {
    assert_eq!(normalize_target("www.example.com"), "example.com");
}

#[test]
fn strips_both() {
    assert_eq!(normalize_target("www.example.com:443"), "example.com");
}

#[test]
fn no_suffix_no_prefix_is_identity() {
    assert_eq!(normalize_target("example.com"), "example.com");
    assert_eq!(normalize_target("http://example.com/"), "http://example.com/");
}

#[test]
fn does_not_panic_on_inner_occurrences() {
    // `:443` occurs but not as a suffix, `www.` occurs but not as a prefix:
    // both strips must be no-ops, not errors.
    assert_eq!(normalize_target("example.com:4433"), "example.com:4433");
    assert_eq!(normalize_target("host:443/path"), "host:443/path");
    assert_eq!(normalize_target("a.www.com"), "a.www.com");
}

#[test]
fn does_not_panic_on_short_inputs() {
    assert_eq!(normalize_target(""), "");
    assert_eq!(normalize_target(":443"), "");
    assert_eq!(normalize_target("www."), "");
    assert_eq!(normalize_target("x"), "x");
}

#[test]
fn idempotent_on_single_pass_inputs() {
    for t in [
        "example.com:443",
        "www.example.com:443",
        "www.example.com",
        "example.com",
        "http://example.com/",
        "",
        ":443",
        "www.",
    ] {
        let once = normalize_target(t);
        let twice = normalize_target(&once);
        assert_eq!(twice, once);
    }
}

#[test]
fn strips_only_one_layer() {
    // A doubled prefix is stripped once per pass; such inputs are the
    // ones on which a second pass still changes the value.
    assert_eq!(normalize_target("www.www.example.com"), "www.example.com");
    assert_eq!(normalize_target("example.com:443:443"), "example.com:443");
}

#[test]
fn strip_www_only_touches_the_prefix() {
    assert_eq!(strip_www("www.example.com"), "example.com");
    assert_eq!(strip_www("example.com"), "example.com");
    assert_eq!(strip_www("a.www.com"), "a.www.com");
    assert_eq!(strip_www(""), "");
}
