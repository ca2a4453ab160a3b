use vstd::prelude::*;

use crate::strutil::{spec_is_ws, spec_trimmed, trim};

verus! {

/// The position of the first `=` in the line, used to split a
/// `KEY=VALUE` pair (meaningful only when one exists).
pub open spec fn spec_eq_index(t: Seq<char>) -> int {
    choose|j: int|
        0 <= j < t.len() && t[j] == '=' && (forall|k: int| 0 <= k < j ==> t[k] != '=')
}

/// A value with a surrounding quote pair removed: when the value is at
/// least two characters and starts and ends with a quote character,
/// the outer characters are stripped.
pub open spec fn spec_unquoted(v: Seq<char>) -> Seq<char> {
    if v.len() >= 2 && (v[0] == '"' || v[0] == '\'') && (v.last() == '"' || v.last() == '\'') {
        v.subrange(1, v.len() - 1)
    } else {
        v
    }
}

/// Parses one line of an environment file: after trimming, empty lines
/// and `#` comments yield nothing; a line with an `=` splits at the
/// first one into a key and a value, the value stripped of a
/// surrounding quote pair; a line without `=` yields nothing.
#[verifier::rlimit(60)]
#[verifier::spinoff_prover]
pub fn parse_env_line(line: &str) -> (r: Option<(String, String)>)
    ensures
        ({
            let t = spec_trimmed(line@);
            t.len() == 0 || t[0] == '#' || (forall|j: int| 0 <= j < t.len() ==> t[j] != '=')
        }) ==> r is None,
        ({
            let t = spec_trimmed(line@);
            t.len() > 0 && t[0] != '#' && (exists|j: int| 0 <= j < t.len() && t[j] == '=')
        }) ==> (r matches Some(kv) && {
            let t = spec_trimmed(line@);
            let idx = spec_eq_index(t);
            kv.0@ == t.take(idx) && kv.1@ == spec_unquoted(t.skip(idx + 1))
        }),
{
    let t = trim(line);
    let ts = t.as_str();
    let n = ts.unicode_len();
    if n == 0 {
        return None;
    }
    if ts.get_char(0) == '#' {
        return None;
    }
    let mut i: usize = 0;
    while i < n
        invariant
            t@ == spec_trimmed(line@),
            ts@ == t@,
            n == t@.len(),
            n > 0,
            t@[0] != '#',
            0 <= i <= n,
            forall|k: int| 0 <= k < i ==> t@[k] != '=',
        decreases n - i,
    {
        if ts.get_char(i) == '=' {
            proof {
                assert(spec_trimmed(line@)[i as int] == '=');
                assert(spec_eq_index(t@) == i as int);
            }
            let key = ts.substring_char(0, i).to_owned();
            let raw_start = i + 1;
            // strip a surrounding quote pair, if both ends carry one
            let mut quoted = false;
            if n - raw_start >= 2 {
                let first = ts.get_char(raw_start);
                let last = ts.get_char(n - 1);
                quoted = (first == '"' || first == '\'') && (last == '"' || last == '\'');
            }
            let value = if quoted {
                ts.substring_char(raw_start + 1, n - 1).to_owned()
            } else {
                ts.substring_char(raw_start, n).to_owned()
            };
            proof {
                let raw = t@.skip(raw_start as int);
                if quoted {
                    assert(raw[0] == t@[raw_start as int]);
                    assert(raw.last() == t@[n - 1]);
                    assert(value@ =~= spec_unquoted(raw));
                } else {
                    if raw.len() >= 2 {
                        assert(raw[0] == t@[raw_start as int]);
                        assert(raw.last() == t@[n - 1]);
                    }
                    assert(value@ =~= spec_unquoted(raw));
                }
            }
            return Some((key, value));
        }
        i += 1;
    }
    None
}

} // verus!
