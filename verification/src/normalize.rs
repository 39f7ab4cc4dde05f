//! Target normalization: before a request target is compared against the
//! domain set, an explicit `:443` port suffix is stripped, and then a
//! leading `www.` prefix is stripped. Each strip is guarded by a presence
//! check, so normalization is total and never panics; a missing suffix or
//! prefix is a no-op.

use vstd::prelude::*;

verus! {

/// True when `s` ends with the four characters `:443`.
pub open spec fn has_https_suffix(s: Seq<char>) -> bool {
    &&& s.len() >= 4
    &&& s[s.len() - 4] == ':'
    &&& s[s.len() - 3] == '4'
    &&& s[s.len() - 2] == '4'
    &&& s[s.len() - 1] == '3'
}

/// True when `s` starts with the four characters `www.`.
pub open spec fn has_www_prefix(s: Seq<char>) -> bool {
    &&& s.len() >= 4
    &&& s[0] == 'w'
    &&& s[1] == 'w'
    &&& s[2] == 'w'
    &&& s[3] == '.'
}

/// `s` without a trailing `:443`, if it has one; otherwise `s` unchanged.
pub open spec fn strip_https_suffix(s: Seq<char>) -> Seq<char> {
    if has_https_suffix(s) {
        s.subrange(0, s.len() - 4)
    } else {
        s
    }
}

/// `s` without a leading `www.`, if it has one; otherwise `s` unchanged.
pub open spec fn strip_www_prefix(s: Seq<char>) -> Seq<char> {
    if has_www_prefix(s) {
        s.subrange(4, s.len() as int)
    } else {
        s
    }
}

/// The normalized form of a request target: the `:443` suffix is stripped
/// first, then the `www.` prefix.
pub open spec fn normalize_spec(s: Seq<char>) -> Seq<char> {
    strip_www_prefix(strip_https_suffix(s))
}

/// Strips a leading `www.` from `line`, if present.
pub fn strip_www(line: &str) -> (r: String)
    ensures
        r@ == strip_www_prefix(line@),
{
    let n = line.unicode_len();
    if n >= 4 && line.get_char(0) == 'w' && line.get_char(1) == 'w' && line.get_char(2) == 'w'
        && line.get_char(3) == '.' {
        let rest = line.substring_char(4, n);
        rest.to_owned()
    } else {
        line.to_owned()
    }
}

/// Normalizes a request target: strips an explicit `:443` port suffix,
/// then a leading `www.` prefix, each only when present.
pub fn normalize_target(uri: &str) -> (r: String)
    ensures
        r@ == normalize_spec(uri@),
{
    let n = uri.unicode_len();
    if n >= 4 && uri.get_char(n - 4) == ':' && uri.get_char(n - 3) == '4'
        && uri.get_char(n - 2) == '4' && uri.get_char(n - 1) == '3' {
        let trimmed = uri.substring_char(0, n - 4);
        strip_www(trimmed)
    } else {
        strip_www(uri)
    }
}

/// Normalization is idempotent: once a target carries no further `:443`
/// suffix and no further `www.` prefix, normalizing it again changes
/// nothing. The guard excludes only targets whose single-pass result still
/// carries a strippable suffix or prefix (a doubled one in the input).
pub proof fn lemma_normalize_idempotent(s: Seq<char>)
    requires
        !has_https_suffix(normalize_spec(s)),
        !has_www_prefix(normalize_spec(s)),
    ensures
        normalize_spec(normalize_spec(s)) == normalize_spec(s),
{
}

} // verus!
