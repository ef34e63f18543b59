//! Literal text matching: the filter text is matched against template names
//! as a literal substring, by a verified search. The match is total: every
//! filter text, whatever its characters or length, either occurs in a name
//! or does not.

use vstd::prelude::*;
use crate::text::is_substring;

verus! {

/// Whether `filter` occurs in `name` starting exactly at position `k`.
fn match_at(filter: &Vec<char>, name: &str, k: usize) -> (r: bool)
    requires
        k + filter@.len() <= name@.len(),
        name@.len() <= usize::MAX,
    ensures
        r == (name@.subrange(k as int, k as int + filter@.len() as int) == filter@),
{
    let m = filter.len();
    let mut j: usize = 0;
    while j < m
        invariant
            j <= m,
            m == filter@.len(),
            k + m <= name@.len(),
            name@.len() <= usize::MAX,
            forall|i: int| 0 <= i < j ==> name@[k + i] == filter@[i],
        decreases m - j,
    {
        if name.get_char(k + j) != filter[j] {
            proof {
                assert(name@.subrange(k as int, k as int + m as int)[j as int] == name@[k + j]);
            }
            return false;
        }
        j = j + 1;
    }
    proof {
        assert(name@.subrange(k as int, k as int + m as int) =~= filter@);
    }
    true
}

/// True when the filter text occurs contiguously inside the name.
pub(crate) fn chars_match_name(filter: &Vec<char>, name: &str) -> (r: bool)
    ensures
        r == is_substring(filter@, name@),
{
    let n = name.unicode_len();
    let m = filter.len();
    if m > n {
        proof {
            if is_substring(filter@, name@) {
                let k2 = choose|k2: int|
                    0 <= k2 && k2 + filter@.len() <= name@.len() && #[trigger] name@.subrange(
                        k2,
                        k2 + filter@.len(),
                    ) == filter@;
                assert(false);
            }
        }
        return false;
    }
    let mut k: usize = 0;
    while k <= n - m
        invariant
            n == name@.len(),
            m == filter@.len(),
            m <= n,
            k <= n - m,
            forall|k2: int|
                0 <= k2 < k ==> #[trigger] name@.subrange(k2, k2 + filter@.len()) != filter@,
        decreases n - m - k,
    {
        if match_at(filter, name, k) {
            proof {
                assert(name@.subrange(k as int, k as int + filter@.len()) == filter@);
            }
            return true;
        }
        if k == n - m {
            proof {
                if is_substring(filter@, name@) {
                    let k2 = choose|k2: int|
                        0 <= k2 && k2 + filter@.len() <= name@.len() && #[trigger] name@.subrange(
                            k2,
                            k2 + filter@.len(),
                        ) == filter@;
                    assert(name@.subrange(k2, k2 + filter@.len()) != filter@);
                }
            }
            return false;
        }
        k = k + 1;
    }
    false
}

/// The names among `names` that contain `filter` as a literal substring, in
/// their original order.
pub open spec fn spec_matching_names(names: Seq<Seq<char>>, filter: Seq<char>) -> Seq<Seq<char>>
    decreases names.len(),
{
    if names.len() == 0 {
        Seq::empty()
    } else {
        spec_matching_names(names.drop_last(), filter) + if is_substring(filter, names.last()) {
            seq![names.last()]
        } else {
            Seq::empty()
        }
    }
}

/// Keeps the names that contain `filter` as a literal substring.
pub fn filter_names(names: &Vec<String>, filter: &Vec<char>) -> (r: Vec<String>)
    ensures
        r.deep_view() == spec_matching_names(names.deep_view(), filter@),
{
    let mut out: Vec<String> = Vec::new();
    let mut i: usize = 0;
    while i < names.len()
        invariant
            i <= names.len(),
            out.deep_view() =~= spec_matching_names(
                names.deep_view().subrange(0, i as int),
                filter@,
            ),
        decreases names.len() - i,
    {
        proof {
            assert(names.deep_view().subrange(0, i + 1).drop_last() =~= names.deep_view().subrange(
                0,
                i as int,
            ));
            assert(names.deep_view().subrange(0, i + 1).last() == names.deep_view()[i as int]);
        }
        if chars_match_name(filter, names[i].as_str()) {
            out.push(names[i].clone());
        }
        i = i + 1;
    }
    proof {
        assert(names.deep_view().subrange(0, names.deep_view().len() as int) =~= names.deep_view());
    }
    out
}

} // verus!
