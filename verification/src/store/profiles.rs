//! Charging profiles, keyed by connector and profile id.

use vstd::prelude::*;

use crate::text::{
    format_i32, int_to_decimal, law_decimal_round_trip, lemma_decimal_chars, parse_i32_chars, parse_i32_spec,
    str_chars,
};

verus! {

broadcast use vstd::string::group_string_axioms;

/// The store key of a profile: `<connector>:<profile id>`.
pub fn profile_key(connector_id: i32, profile_id: i32) -> (r: String)
    ensures
        r@ == int_to_decimal(connector_id as int) + ":"@ + int_to_decimal(profile_id as int),
{
    let mut key = format_i32(connector_id);
    key.append(":");
    let pid = format_i32(profile_id);
    key.append(pid.as_str());
    key
}

/// The prefix under which the profiles of a connector are stored: that of
/// one connector, or the empty prefix for all of them.
pub fn connector_prefix(connector_id: Option<i32>) -> (r: String)
    ensures
        r@ == match connector_id {
            Some(c) => int_to_decimal(c as int) + ":"@,
            None => Seq::<char>::empty(),
        },
{
    match connector_id {
        Some(c) => {
            let mut p = format_i32(c);
            p.append(":");
            p
        },
        None => String::new(),
    }
}

/// `j` is the position of the only `:` in `k`.
pub open spec fn only_colon_at(k: Seq<char>, j: int) -> bool {
    &&& 0 <= j < k.len()
    &&& k[j] == ':'
    &&& forall|i: int| 0 <= i < k.len() && i != j ==> #[trigger] k[i] != ':'
}

/// The connector a stored profile key names: the key must split at `:` into
/// exactly two parts, the first of them a number.
pub open spec fn key_connector_spec(k: Seq<char>) -> Option<i32> {
    if exists|j: int| only_colon_at(k, j) {
        parse_i32_spec(k.take(choose|j: int| only_colon_at(k, j)))
    } else {
        None
    }
}

/// The connector a stored profile key names, if it is well formed.
pub fn profile_key_connector(key: &str) -> (r: Option<i32>)
    ensures
        r == key_connector_spec(key@),
{
    let cs = str_chars(key);
    let mut colons: usize = 0;
    let mut first: usize = 0;
    let mut i: usize = 0;
    while i < cs.len()
        invariant
            cs@ == key@,
            i <= cs@.len(),
            colons <= i,
            colons == 0 ==> forall|k: int| 0 <= k < i ==> #[trigger] cs@[k] != ':',
            colons >= 1 ==> first < i && cs@[first as int] == ':' && forall|k: int|
                0 <= k < first ==> #[trigger] cs@[k] != ':',
            colons == 1 ==> forall|k: int| 0 <= k < i && k != first ==> #[trigger] cs@[k] != ':',
            colons >= 2 ==> exists|k: int| 0 <= k < i && k != first && #[trigger] cs@[k] == ':',
        decreases cs@.len() - i,
    {
        if cs[i] == ':' {
            if colons == 0 {
                first = i;
            }
            colons = colons + 1;
        }
        i = i + 1;
    }
    if colons != 1 {
        proof {
            assert forall|j: int| !only_colon_at(key@, j) by {
                if only_colon_at(key@, j) {
                    if colons >= 2 {
                        let k = choose|k: int| 0 <= k < cs@.len() && k != first && #[trigger] cs@[k] == ':';
                        assert(j == first);
                    }
                }
            }
        }
        return None;
    }
    let mut prefix: Vec<char> = Vec::new();
    let mut k: usize = 0;
    while k < first
        invariant
            cs@ == key@,
            first < cs@.len(),
            k <= first,
            prefix@ == cs@.take(k as int),
        decreases first - k,
    {
        prefix.push(cs[k]);
        k = k + 1;
        proof {
            assert(prefix@ =~= cs@.take(k as int));
        }
    }
    proof {
        assert(only_colon_at(key@, first as int));
        let c = choose|j: int| only_colon_at(key@, j);
        assert(c == first) by {
            if c != first {
                assert(key@[c] != ':');
            }
        }
    }
    parse_i32_chars(&prefix)
}

/// The key of a profile names the connector it was stored under.
pub proof fn law_profile_key_names_its_connector(connector_id: i32, profile_id: i32)
    ensures
        key_connector_spec(int_to_decimal(connector_id as int) + ":"@ + int_to_decimal(profile_id as int)) == Some(
            connector_id,
        ),
{
    let dc = int_to_decimal(connector_id as int);
    let dp = int_to_decimal(profile_id as int);
    let k = dc + ":"@ + dp;
    reveal_strlit(":");
    lemma_decimal_chars(connector_id as int);
    lemma_decimal_chars(profile_id as int);
    let j = dc.len() as int;
    assert forall|i: int| 0 <= i < k.len() && i != j implies #[trigger] k[i] != ':' by {
        if i < j {
            assert(k[i] == dc[i]);
        } else {
            assert(k[i] == dp[i - j - 1]);
        }
    }
    assert(only_colon_at(k, j));
    let c = choose|c: int| only_colon_at(k, c);
    assert(c == j) by {
        if c != j {
            assert(k[c] != ':');
        }
    }
    assert(k.take(j) =~= dc);
    law_decimal_round_trip(connector_id);
}

} // verus!
