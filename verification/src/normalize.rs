//! The name normalizer: device-internal input identifiers are rewritten to
//! the display-friendly form. Two rules apply, first match wins: the one
//! vendor identifier whose underscore stands for a hyphen is mapped to the
//! hyphenated form, and an identifier of uppercase letters, an underscore,
//! then digits loses the underscore. Anything else passes through unchanged.

use vstd::prelude::*;

use crate::text::{is_digit_char, str_eq};

verus! {

/// An ASCII uppercase letter.
pub open spec fn is_upper_char(c: char) -> bool {
    65 <= c as u32 && c as u32 <= 90
}

/// Index `k` cuts `s` into one or more uppercase letters, an underscore at
/// `k`, and one or more digits.
pub open spec fn splits_at(s: Seq<char>, k: int) -> bool {
    &&& 1 <= k < s.len() - 1
    &&& s[k] == '_'
    &&& forall|i: int| 0 <= i < k ==> is_upper_char(s[i])
    &&& forall|i: int| k < i < s.len() ==> is_digit_char(s[i])
}

pub open spec fn has_split(s: Seq<char>) -> bool {
    exists|k: int| splits_at(s, k)
}

/// The letter and digit groups with the underscore removed.
pub open spec fn joined(s: Seq<char>) -> Seq<char> {
    let k = choose|k: int| splits_at(s, k);
    s.take(k) + s.skip(k + 1)
}

/// The normalized form of a raw input identifier.
pub open spec fn normalized(s: Seq<char>) -> Seq<char> {
    if s == "V_AUX"@ {
        "V-AUX"@
    } else if has_split(s) {
        joined(s)
    } else {
        s
    }
}

/// At most one index can carry the underscore of a letters-underscore-digits
/// identifier, so `joined` does not depend on which witness is chosen.
proof fn lemma_split_unique(s: Seq<char>, k1: int, k2: int)
    requires
        splits_at(s, k1),
        splits_at(s, k2),
    ensures
        k1 == k2,
{
    if k1 < k2 {
        assert(is_digit_char(s[k2]));
    }
    if k2 < k1 {
        assert(is_digit_char(s[k1]));
    }
}

/// Relies on `regex::Regex`: an anchored pattern of one or more ASCII
/// uppercase letters, an underscore, then one or more ASCII digits; on a
/// match the two capture groups are returned concatenated.
#[verifier::external_body]
fn capture_upper_digits(s: &str) -> (r: Option<String>)
    ensures
        match r {
            Some(j) => exists|k: int|
                splits_at(s@, k) && j@ == s@.take(k) + s@.skip(k + 1),
            None => !has_split(s@),
        },
{
    let re = regex::Regex::new("^([A-Z]+)_([0-9]+)$").unwrap();
    match re.captures(s) {
        Some(caps) => Some(format!("{}{}", &caps[1], &caps[2])),
        None => None,
    }
}

/// Rewrites a raw device-internal input identifier to its canonical form.
pub fn normalize(raw: String) -> (r: String)
    ensures
        r@ == normalized(raw@),
{
    if str_eq(raw.as_str(), "V_AUX") {
        return String::from_str("V-AUX");
    }
    match capture_upper_digits(raw.as_str()) {
        Some(j) => {
            proof {
                let k = choose|k: int|
                    splits_at(raw@, k) && j@ == raw@.take(k) + raw@.skip(k + 1);
                let k2 = choose|k2: int| splits_at(raw@, k2);
                lemma_split_unique(raw@, k, k2);
            }
            j
        },
        None => raw,
    }
}

/// A normalized identifier holds no underscore: the hyphenated vendor form
/// has none, and joining the letter and digit groups removes the only one.
proof fn lemma_normalized_no_underscore(s: Seq<char>)
    requires
        s != "V_AUX"@,
        has_split(s),
    ensures
        forall|i: int| 0 <= i < normalized(s).len() ==> normalized(s)[i] != '_',
{
    let k = choose|k: int| splits_at(s, k);
    let j = joined(s);
    assert forall|i: int| 0 <= i < j.len() implies j[i] != '_' by {
        if i < k {
            assert(is_upper_char(s[i]));
        } else {
            assert(j[i] == s[i + 1]);
            assert(is_digit_char(s[i + 1]));
        }
    }
}

/// Normalization is idempotent: an already-normalized identifier is a fixed
/// point, whichever rule produced it.
pub proof fn lemma_normalized_idempotent(s: Seq<char>)
    ensures
        normalized(normalized(s)) == normalized(s),
{
    reveal_strlit("V_AUX");
    reveal_strlit("V-AUX");
    if s == "V_AUX"@ {
        let v = "V-AUX"@;
        assert(v[1] == '-');
        assert(v != "V_AUX"@);
        assert forall|k: int| !splits_at(v, k) by {
            if 1 <= k < v.len() - 1 {
                assert(v[k] != '_');
            }
        }
    } else if has_split(s) {
        let j = normalized(s);
        lemma_normalized_no_underscore(s);
        if j == "V_AUX"@ {
            assert(j[1] == '_');
        }
        assert forall|k: int| !splits_at(j, k) by {
            if 1 <= k < j.len() - 1 {
                assert(j[k] != '_');
            }
        }
    }
}

} // verus!
