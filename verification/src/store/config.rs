//! OCPP configuration keys (OCPP 1.6 §9.1), stored under a common prefix.

use vstd::prelude::*;

use vstd::string::*;

use crate::text::str_chars;

verus! {

broadcast use vstd::string::group_string_axioms;

pub open spec fn config_prefix_spec() -> Seq<char> {
    "config/"@
}

/// The prefix under which configuration values are stored.
pub fn config_prefix() -> (r: &'static str)
    ensures
        r@ == config_prefix_spec(),
{
    "config/"
}

/// The store key of a configuration key.
pub fn config_key(key: &str) -> (r: String)
    ensures
        r@ == config_prefix_spec() + key@,
{
    let mut k = config_prefix().to_string();
    k.append(key);
    k
}

/// A stored key with the configuration prefix removed; a key without the
/// prefix is kept whole.
pub open spec fn strip_config_prefix_spec(stored: Seq<char>) -> Seq<char> {
    if stored.len() >= 7 && stored.take(7) == config_prefix_spec() {
        stored.skip(7)
    } else {
        stored
    }
}

/// The configuration key a stored key names.
pub fn strip_config_prefix(stored: &str) -> (r: String)
    ensures
        r@ == strip_config_prefix_spec(stored@),
{
    proof {
        reveal_strlit("config/");
    }
    let cs = str_chars(stored);
    let p = str_chars(config_prefix());
    let mut matches = cs.len() >= 7;
    let mut i: usize = 0;
    while matches && i < 7
        invariant
            cs@ == stored@,
            p@ == config_prefix_spec(),
            p@.len() == 7,
            matches ==> cs@.len() >= 7,
            i <= 7,
            matches ==> forall|k: int| 0 <= k < i ==> cs@[k] == p@[k],
            !matches ==> !(stored@.len() >= 7 && stored@.take(7) == config_prefix_spec()),
        decreases 7 - i + (if matches { 1int } else { 0int }),
    {
        if cs[i] != p[i] {
            proof {
                if stored@.len() >= 7 && stored@.take(7) == config_prefix_spec() {
                    assert(stored@.take(7)[i as int] == cs@[i as int]);
                }
            }
            matches = false;
        } else {
            i = i + 1;
        }
    }
    if matches {
        assert(stored@.take(7) =~= config_prefix_spec());
        let n = stored.unicode_len();
        let rest = stored.substring_char(7, n);
        assert(stored@.subrange(7, n as int) =~= stored@.skip(7));
        rest.to_string()
    } else {
        stored.to_string()
    }
}

/// Removing the prefix from the store key of a configuration key gives the
/// key back.
pub proof fn law_config_key_round_trip(key: Seq<char>)
    ensures
        strip_config_prefix_spec(config_prefix_spec() + key) == key,
{
    reveal_strlit("config/");
    let stored = config_prefix_spec() + key;
    assert(stored.take(7) =~= config_prefix_spec());
    assert(stored.skip(7) =~= key);
}

} // verus!
