//! Validation of a CONNECT target authority. A tunnel may only be opened
//! to a target of the form `host:port`: a non-empty host, a colon, and a
//! non-empty run of decimal digits whose value fits a TCP port. A CONNECT
//! request whose target fails this check is answered with a client error
//! and no upstream connection is ever attempted for it.

use vstd::prelude::*;

verus! {

/// True when `c` is a decimal digit.
pub open spec fn is_digit(c: char) -> bool {
    '0' as u32 <= c as u32 && c as u32 <= '9' as u32
}

/// The numeric value of a decimal digit.
pub open spec fn digit_val(c: char) -> int {
    c as u32 - '0' as u32
}

/// The number denoted by a sequence of decimal digits, most significant
/// first (an empty sequence denotes zero).
pub open spec fn digits_value(s: Seq<char>) -> int
    decreases s.len(),
{
    if s.len() == 0 {
        0
    } else {
        digits_value(s.drop_last()) * 10 + digit_val(s.last())
    }
}

/// True when `s` is a non-empty run of decimal digits denoting a valid
/// TCP port number (at most 65535; leading zeros are permitted).
pub open spec fn valid_port_digits(s: Seq<char>) -> bool {
    &&& s.len() >= 1
    &&& forall|i: int| 0 <= i < s.len() ==> is_digit(s[i])
    &&& digits_value(s) <= 65535
}

/// True when position `i` splits `s` into a non-empty host, a colon at
/// `i`, and valid port digits after it.
pub open spec fn authority_split_at(s: Seq<char>, i: int) -> bool {
    &&& 1 <= i < s.len()
    &&& s[i] == ':'
    &&& valid_port_digits(s.subrange(i + 1, s.len() as int))
}

/// True when `s` has the form `host:port` with a non-empty host and a
/// valid port.
pub open spec fn valid_authority(s: Seq<char>) -> bool {
    exists|i: int| authority_split_at(s, i)
}

/// The split position of a valid authority is unique: it can only be just
/// before the maximal digit suffix, since everything after the colon must
/// be a digit and the colon itself is not.
proof fn lemma_split_unique(s: Seq<char>, j: int)
    requires
        0 < j < s.len(),
        !is_digit(s[j - 1]),
        forall|k: int| j <= k < s.len() ==> is_digit(s[k]),
        valid_authority(s),
    ensures
        authority_split_at(s, j - 1),
{
    let i = choose|i: int| authority_split_at(s, i);
    let port = s.subrange(i + 1, s.len() as int);
    assert forall|k: int| i + 1 <= k < s.len() implies is_digit(s[k]) by {
        assert(port[k - i - 1] == s[k]);
        assert(is_digit(port[k - i - 1]));
    }
    if i < j - 1 {
        assert(is_digit(s[j - 1]));
    }
    if i > j - 1 {
        assert(is_digit(s[i]));
        assert(s[i] == ':');
    }
    assert(i == j - 1);
}

/// Decides whether `s` is a valid `host:port` authority, per
/// `valid_authority`.
pub fn is_valid_authority(s: &str) -> (r: bool)
    ensures
        r == valid_authority(s@),
{
    let n = s.unicode_len();
    // Scan backwards over the maximal run of trailing digits; afterwards
    // `j` is the index where that run starts.
    let mut j: usize = n;
    let mut scanning: bool = true;
    while scanning && j > 0
        invariant
            n == s@.len(),
            j <= n,
            forall|k: int| j <= k < n ==> is_digit(s@[k]),
            !scanning ==> 0 < j && !is_digit(s@[j - 1]),
        decreases j + (if scanning { 1int } else { 0int }),
    {
        let c = s.get_char(j - 1);
        if '0' as u32 <= c as u32 && c as u32 <= '9' as u32 {
            j = j - 1;
        } else {
            scanning = false;
        }
    }
    if j == n {
        // Either the target is empty or its last character is not a
        // digit, so no split has a digit run after the colon.
        assert(!valid_authority(s@)) by {
            if valid_authority(s@) {
                let i = choose|i: int| authority_split_at(s@, i);
                let port = s@.subrange(i + 1, n as int);
                assert(port[n - i - 2] == s@[n - 1]);
                assert(is_digit(s@[n - 1]));
            }
        }
        false
    } else if j == 0 {
        // Every character is a digit, so no position holds a colon.
        assert(!valid_authority(s@)) by {
            if valid_authority(s@) {
                let i = choose|i: int| authority_split_at(s@, i);
                assert(is_digit(s@[i]));
            }
        }
        false
    } else {
        let c = s.get_char(j - 1);
        if !(c == ':') || j < 2 {
            // The only possible split is just before the digit run, and
            // it needs a colon there and a non-empty host before it.
            assert(!valid_authority(s@)) by {
                if valid_authority(s@) {
                    lemma_split_unique(s@, j as int);
                }
            }
            false
        } else {
            // `host:digits` shape is settled; the digit run is non-empty
            // (j < n). What remains is the port value bound.
            let mut val: u32 = 0;
            let mut over: bool = false;
            let mut k: usize = j;
            while k < n
                invariant
                    n == s@.len(),
                    j <= k <= n,
                    forall|m: int| j <= m < n ==> is_digit(s@[m]),
                    !over ==> val == digits_value(s@.subrange(j as int, k as int)) && val
                        <= 65535,
                    over ==> digits_value(s@.subrange(j as int, k as int)) > 65535,
                decreases n - k,
            {
                let ch = s.get_char(k);
                let d: u32 = ch as u32 - '0' as u32;
                proof {
                    let prefix = s@.subrange(j as int, k as int);
                    let cur = s@.subrange(j as int, k as int + 1);
                    assert(cur.drop_last() =~= prefix);
                    assert(cur.last() == s@[k as int]);
                }
                if !over {
                    let nv: u32 = val * 10 + d;
                    if nv > 65535 {
                        over = true;
                    } else {
                        val = nv;
                    }
                }
                k = k + 1;
            }
            if over {
                assert(!valid_authority(s@)) by {
                    if valid_authority(s@) {
                        lemma_split_unique(s@, j as int);
                        assert(digits_value(s@.subrange(j as int, n as int)) <= 65535);
                    }
                }
                false
            } else {
                assert(valid_authority(s@)) by {
                    assert(authority_split_at(s@, j - 1));
                }
                true
            }
        }
    }
}

} // verus!
