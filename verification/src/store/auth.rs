//! The local authorization list (OCPP 1.6 §5.12, persistent) and the
//! authorization cache (§5.11), kept side by side under their own prefixes.

use vstd::prelude::*;

use crate::messages::{AuthorizationData, IdTagInfo};
use crate::store::queue::{be_encode, be_value, lemma_be_value_bound, pow256};

verus! {

broadcast use vstd::string::group_string_axioms;

pub open spec fn list_prefix_spec() -> Seq<char> {
    "auth/"@
}

pub open spec fn cache_prefix_spec() -> Seq<char> {
    "cache/"@
}

/// The prefix of the local authorization list entries.
pub fn list_prefix() -> (r: &'static str)
    ensures
        r@ == list_prefix_spec(),
{
    "auth/"
}

/// The prefix of the authorization cache entries.
pub fn cache_prefix() -> (r: &'static str)
    ensures
        r@ == cache_prefix_spec(),
{
    "cache/"
}

/// The key under which the list version is stored.
pub fn version_key() -> (r: &'static str)
    ensures
        r@ == "version"@,
{
    "version"
}

/// The store key of a tag in the local authorization list.
pub fn list_key(id_tag: &str) -> (r: String)
    ensures
        r@ == list_prefix_spec() + id_tag@,
{
    let mut k = list_prefix().to_string();
    k.append(id_tag);
    k
}

/// The store key of a tag in the authorization cache.
pub fn cache_key(id_tag: &str) -> (r: String)
    ensures
        r@ == cache_prefix_spec() + id_tag@,
{
    let mut k = cache_prefix().to_string();
    k.append(id_tag);
    k
}

/// The stored form of a list version: its four big-endian bytes.
pub fn encode_list_version(version: i32) -> (r: Vec<u8>)
    ensures
        r@.len() == 4,
        be_value(r@) == version as u32,
{
    proof {
        assert(pow256(4) == 0x1_0000_0000) by {
            reveal_with_fuel(pow256, 5);
        }
    }
    be_encode((version as u32) as u64, 4)
}

/// The list version read back from the store: none stored means no list
/// (version 0); anything but four bytes is corrupt.
pub open spec fn decode_list_version_spec(stored: Option<Seq<u8>>) -> Result<i32, ()> {
    match stored {
        None => Ok(0),
        Some(b) => if b.len() == 4 {
            Ok((be_value(b) as u32) as i32)
        } else {
            Err(())
        },
    }
}

/// Reads the stored list version.
pub fn decode_list_version(stored: Option<&[u8]>) -> (r: Result<i32, ()>)
    ensures
        r == decode_list_version_spec(
            match stored {
                Some(b) => Some(b@),
                None => None,
            },
        ),
{
    match stored {
        None => Ok(0),
        Some(b) => {
            if b.len() != 4 {
                return Err(());
            }
            let mut x: u32 = 0;
            let mut i: usize = 0;
            while i < 4
                invariant
                    b@.len() == 4,
                    i <= 4,
                    x == be_value(b@.take(i as int)),
                decreases 4 - i,
            {
                proof {
                    lemma_be_value_bound(b@.take(i as int));
                    assert(b@.take(i + 1).drop_last() =~= b@.take(i as int));
                    lemma_pow256_le3(i as nat);
                    assert(x as nat * 256 + 255 <= 4294967295) by (nonlinear_arith)
                        requires
                            x < 16777216,
                    ;
                }
                x = x * 256 + b[i] as u32;
                i = i + 1;
            }
            assert(b@.take(4) =~= b@);
            Ok(x as i32)
        },
    }
}

proof fn lemma_pow256_le3(i: nat)
    requires
        i < 4,
    ensures
        pow256(i) <= 16777216,
{
    reveal_with_fuel(pow256, 4);
}

/// Reading back a stored list version gives the version that was stored.
pub proof fn law_list_version_round_trip(version: i32, stored: Seq<u8>)
    requires
        stored.len() == 4,
        be_value(stored) == version as u32,
    ensures
        decode_list_version_spec(Some(stored)) == Ok::<i32, ()>(version),
{
    assert(((version as u32) as i32) == version) by (bit_vector);
}

/// One change to the stored local authorization list.
#[derive(Debug, Clone, PartialEq)]
pub enum ListUpdate {
    /// Store this authorization under this key.
    Put { key: String, info: IdTagInfo },
    /// Remove the entry under this key.
    Remove { key: String },
}

/// The change an entry of a SendLocalList makes: an entry with an
/// authorization stores it, an entry without one removes the tag.
pub open spec fn entry_update(e: AuthorizationData) -> (Seq<char>, Option<IdTagInfo>) {
    (list_prefix_spec() + e.id_tag@, e.id_tag_info)
}

/// The key and the authorization an update stores (none for a removal).
pub open spec fn update_effect(u: ListUpdate) -> (Seq<char>, Option<IdTagInfo>) {
    match u {
        ListUpdate::Put { key, info } => (key@, Some(info)),
        ListUpdate::Remove { key } => (key@, None),
    }
}

/// The changes a SendLocalList makes to the stored list, one per entry, in order.
pub fn local_list_updates(entries: Vec<AuthorizationData>) -> (r: Vec<ListUpdate>)
    ensures
        r@.len() == entries@.len(),
        forall|i: int| 0 <= i < r@.len() ==> update_effect(#[trigger] r@[i]) == entry_update(entries@[i]),
{
    let mut out: Vec<ListUpdate> = Vec::new();
    let mut i: usize = 0;
    while i < entries.len()
        invariant
            i <= entries@.len(),
            out@.len() == i,
            forall|k: int| 0 <= k < i ==> update_effect(#[trigger] out@[k]) == entry_update(entries@[k]),
        decreases entries@.len() - i,
    {
        let e = &entries[i];
        let key = list_key(e.id_tag.as_str());
        let u = match &e.id_tag_info {
            Some(info) => ListUpdate::Put { key, info: info.duplicate() },
            None => ListUpdate::Remove { key },
        };
        out.push(u);
        i = i + 1;
    }
    out
}

/// The stored list, as a map from key to authorization, after the updates.
pub open spec fn apply_updates(list: Map<Seq<char>, IdTagInfo>, ups: Seq<(Seq<char>, Option<IdTagInfo>)>) -> Map<
    Seq<char>,
    IdTagInfo,
>
    decreases ups.len(),
{
    if ups.len() == 0 {
        list
    } else {
        let prev = apply_updates(list, ups.drop_last());
        match ups.last().1 {
            Some(info) => prev.insert(ups.last().0, info),
            None => prev.remove(ups.last().0),
        }
    }
}

/// After a list update, the last update of a key decides what the key holds;
/// keys no update touches keep what they held.
pub proof fn law_last_update_wins(
    list: Map<Seq<char>, IdTagInfo>,
    ups: Seq<(Seq<char>, Option<IdTagInfo>)>,
    key: Seq<char>,
)
    ensures
        (forall|i: int| 0 <= i < ups.len() ==> #[trigger] ups[i].0 != key) ==> apply_updates(list, ups).dom().contains(key)
            == list.dom().contains(key) && (list.dom().contains(key) ==> apply_updates(list, ups)[key]
            == list[key]),
        forall|j: int|
            0 <= j < ups.len() && ups[j].0 == key && (forall|i: int| j < i < ups.len() ==> #[trigger] ups[i].0 != key)
                ==> match ups[j].1 {
                Some(info) => apply_updates(list, ups).dom().contains(key) && apply_updates(list, ups)[key] == info,
                None => !apply_updates(list, ups).dom().contains(key),
            },
    decreases ups.len(),
{
    if ups.len() > 0 {
        let d = ups.drop_last();
        law_last_update_wins(list, d, key);
        assert forall|j: int|
            0 <= j < ups.len() && ups[j].0 == key && (forall|i: int| j < i < ups.len() ==> #[trigger] ups[i].0 != key)
                implies match ups[j].1 {
                Some(info) => apply_updates(list, ups).dom().contains(key) && apply_updates(list, ups)[key] == info,
                None => !apply_updates(list, ups).dom().contains(key),
            } by {
            if j < ups.len() - 1 {
                assert(ups[ups.len() - 1].0 != key);
                assert(d[j] == ups[j]);
                assert forall|i: int| j < i < d.len() implies #[trigger] d[i].0 != key by {
                    assert(d[i] == ups[i]);
                }
            }
        }
        if forall|i: int| 0 <= i < ups.len() ==> #[trigger] ups[i].0 != key {
            assert forall|i: int| 0 <= i < d.len() implies #[trigger] d[i].0 != key by {
                assert(d[i] == ups[i]);
            }
            assert(ups[ups.len() - 1].0 != key);
        }
    }
}

/// `k` begins with `p`.
pub open spec fn has_prefix(k: Seq<char>, p: Seq<char>) -> bool {
    p.len() <= k.len() && k.take(p.len() as int) == p
}

/// One write to a charge point's authorization tree, keys as text and values
/// as the bytes stored.
pub enum AuthWrite {
    /// A list update: the list is emptied first when `full`, then each key
    /// is set or removed, then the version is stored as `version_bytes`.
    UpdateList { list_version: i32, full: bool, updates: Seq<(Seq<char>, Option<Seq<u8>>)>, version_bytes: Seq<u8> },
    /// Every list entry is removed.
    ClearList,
    /// Every cache entry is removed.
    ClearCache,
    /// A tag's authorization is cached.
    PutCache { id_tag: Seq<char>, value: Seq<u8> },
}

/// The writes the store makes: list updates write list keys and the
/// encoded version.
pub open spec fn is_store_write(w: AuthWrite) -> bool {
    match w {
        AuthWrite::UpdateList { list_version, updates, version_bytes, .. } => {
            &&& version_bytes.len() == 4
            &&& be_value(version_bytes) == list_version as u32
            &&& forall|j: int| 0 <= j < updates.len() ==> has_prefix(#[trigger] updates[j].0, list_prefix_spec())
        },
        _ => true,
    }
}

/// The tree without the keys that begin with `p`.
pub open spec fn without_prefix(m: Map<Seq<char>, Seq<u8>>, p: Seq<char>) -> Map<Seq<char>, Seq<u8>> {
    Map::new(|k: Seq<char>| m.dom().contains(k) && !has_prefix(k, p), |k: Seq<char>| m[k])
}

/// The tree after setting or removing keys, in order.
pub open spec fn write_keys(m: Map<Seq<char>, Seq<u8>>, ups: Seq<(Seq<char>, Option<Seq<u8>>)>) -> Map<Seq<char>, Seq<u8>>
    decreases ups.len(),
{
    if ups.len() == 0 {
        m
    } else {
        let prev = write_keys(m, ups.drop_last());
        match ups.last().1 {
            Some(v) => prev.insert(ups.last().0, v),
            None => prev.remove(ups.last().0),
        }
    }
}

/// The tree after one write.
pub open spec fn apply_auth_write(m: Map<Seq<char>, Seq<u8>>, w: AuthWrite) -> Map<Seq<char>, Seq<u8>> {
    match w {
        AuthWrite::UpdateList { full, updates, version_bytes, .. } => {
            let cleared = if full {
                without_prefix(m, list_prefix_spec())
            } else {
                m
            };
            write_keys(cleared, updates).insert("version"@, version_bytes)
        },
        AuthWrite::ClearList => without_prefix(m, list_prefix_spec()),
        AuthWrite::ClearCache => without_prefix(m, cache_prefix_spec()),
        AuthWrite::PutCache { id_tag, value } => m.insert(cache_prefix_spec() + id_tag, value),
    }
}

/// The tree after a sequence of writes.
pub open spec fn apply_auth_writes(m: Map<Seq<char>, Seq<u8>>, ws: Seq<AuthWrite>) -> Map<Seq<char>, Seq<u8>>
    decreases ws.len(),
{
    if ws.len() == 0 {
        m
    } else {
        apply_auth_write(apply_auth_writes(m, ws.drop_last()), ws.last())
    }
}

/// The list version a tree holds, as the store reads it.
pub open spec fn stored_list_version(m: Map<Seq<char>, Seq<u8>>) -> Result<i32, ()> {
    decode_list_version_spec(
        if m.dom().contains("version"@) {
            Some(m["version"@])
        } else {
            None
        },
    )
}

proof fn lemma_version_key_apart(k: Seq<char>, p: Seq<char>)
    requires
        has_prefix(k, p),
        p == list_prefix_spec() || p == cache_prefix_spec(),
    ensures
        k != "version"@,
{
    reveal_strlit("version");
    reveal_strlit("auth/");
    reveal_strlit("cache/");
    assert(k[0] == k.take(p.len() as int)[0]);
}

proof fn lemma_write_keys_keeps_version(m: Map<Seq<char>, Seq<u8>>, ups: Seq<(Seq<char>, Option<Seq<u8>>)>)
    requires
        forall|j: int| 0 <= j < ups.len() ==> has_prefix(#[trigger] ups[j].0, list_prefix_spec()),
    ensures
        write_keys(m, ups).dom().contains("version"@) == m.dom().contains("version"@),
        m.dom().contains("version"@) ==> write_keys(m, ups)["version"@] == m["version"@],
    decreases ups.len(),
{
    if ups.len() > 0 {
        let d = ups.drop_last();
        assert forall|j: int| 0 <= j < d.len() implies has_prefix(#[trigger] d[j].0, list_prefix_spec()) by {
            assert(d[j] == ups[j]);
        }
        lemma_write_keys_keeps_version(m, d);
        lemma_version_key_apart(ups.last().0, list_prefix_spec());
    }
}

proof fn lemma_other_writes_keep_version(m: Map<Seq<char>, Seq<u8>>, w: AuthWrite)
    requires
        !(w is UpdateList),
    ensures
        apply_auth_write(m, w).dom().contains("version"@) == m.dom().contains("version"@),
        m.dom().contains("version"@) ==> apply_auth_write(m, w)["version"@] == m["version"@],
{
    reveal_strlit("version");
    reveal_strlit("auth/");
    reveal_strlit("cache/");
    match w {
        AuthWrite::PutCache { id_tag, value } => {
            let k = cache_prefix_spec() + id_tag;
            assert(k[0] == 'c');
        },
        AuthWrite::ClearList => {
            if has_prefix("version"@, list_prefix_spec()) {
                lemma_version_key_apart("version"@, list_prefix_spec());
            }
        },
        AuthWrite::ClearCache => {
            if has_prefix("version"@, cache_prefix_spec()) {
                lemma_version_key_apart("version"@, cache_prefix_spec());
            }
        },
        _ => {},
    }
}

/// The list version the store reads back is the one the last list update
/// stored, whatever list removals and cache writes came after it; with no
/// list update at all, it is 0.
pub proof fn law_list_version_is_last_written(ws: Seq<AuthWrite>)
    requires
        forall|i: int| 0 <= i < ws.len() ==> is_store_write(#[trigger] ws[i]),
    ensures
        (forall|i: int| 0 <= i < ws.len() ==> !(#[trigger] ws[i] is UpdateList)) ==> stored_list_version(
            apply_auth_writes(Map::empty(), ws),
        ) == Ok::<i32, ()>(0),
        forall|k: int|
            0 <= k < ws.len() && #[trigger] ws[k] is UpdateList && (forall|i: int| k < i < ws.len() ==> !(#[trigger] ws[i] is UpdateList))
                ==> stored_list_version(apply_auth_writes(Map::empty(), ws)) == Ok::<i32, ()>(ws[k]->list_version),
    decreases ws.len(),
{
    if ws.len() > 0 {
        let d = ws.drop_last();
        assert forall|i: int| 0 <= i < d.len() implies is_store_write(#[trigger] d[i]) by {
            assert(d[i] == ws[i]);
        }
        law_list_version_is_last_written(d);
        let m = apply_auth_writes(Map::empty(), d);
        let w = ws.last();
        assert(is_store_write(ws[ws.len() - 1]));
        if w is UpdateList {
            let full = w->full;
            let cleared = if full {
                without_prefix(m, list_prefix_spec())
            } else {
                m
            };
            let bytes = w->version_bytes;
            assert(apply_auth_write(m, w)["version"@] == bytes);
            law_list_version_round_trip(w->list_version, bytes);
        } else {
            lemma_other_writes_keep_version(m, w);
            assert forall|i: int| 0 <= i < d.len() && (forall|x: int| 0 <= x < ws.len() ==> !(#[trigger] ws[x] is UpdateList)) implies !(#[trigger] d[i] is UpdateList) by {
                assert(d[i] == ws[i]);
            }
            assert forall|k: int|
                0 <= k < ws.len() && #[trigger] ws[k] is UpdateList && (forall|i: int| k < i < ws.len() ==> !(#[trigger] ws[i] is UpdateList))
                    implies stored_list_version(apply_auth_writes(Map::empty(), ws)) == Ok::<i32, ()>(ws[k]->list_version) by {
                assert(k < ws.len() - 1);
                assert(d[k] == ws[k]);
                assert forall|i: int| k < i < d.len() implies !(#[trigger] d[i] is UpdateList) by {
                    assert(d[i] == ws[i]);
                }
            }
        }
    }
}

} // verus!
