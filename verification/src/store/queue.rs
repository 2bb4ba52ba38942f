//! The outbound queue: calls that could not be sent while offline, kept in
//! FIFO order under monotonically increasing ids and replayed on reconnect.
//!
//! The store iterates keys in lexicographic byte order, so an id is stored as
//! its eight big-endian bytes: then the queue comes back in id order.

use vstd::prelude::*;

use crate::json::JsonValue;

verus! {

/// One persisted outbound `CALL`. It is re-sent as a `CALL` frame with this
/// action and payload.
#[derive(Debug, Clone, PartialEq)]
pub struct PendingCall {
    pub action: String,
    pub payload: JsonValue,
}

impl PendingCall {
    /// What to queue when sending a call failed: the call, if its payload
    /// could be rendered as JSON; nothing otherwise.
    pub fn for_failed_send(action: &str, payload: Option<JsonValue>) -> (r: Option<PendingCall>)
        ensures
            match payload {
                Some(p) => r matches Some(c) && c.action@ == action@ && c.payload == p,
                None => r is None,
            },
    {
        match payload {
            Some(p) => Some(PendingCall { action: action.to_string(), payload: p }),
            None => None,
        }
    }
}

/// `256^n`.
pub open spec fn pow256(n: nat) -> nat
    decreases n,
{
    if n == 0 {
        1
    } else {
        256 * pow256((n - 1) as nat)
    }
}

/// The number a sequence of bytes stands for, most significant byte first.
pub open spec fn be_value(s: Seq<u8>) -> nat
    decreases s.len(),
{
    if s.len() == 0 {
        0
    } else {
        be_value(s.drop_last()) * 256 + s.last() as nat
    }
}

/// `s` sorts strictly before `t` byte by byte.
pub open spec fn lex_less(s: Seq<u8>, t: Seq<u8>) -> bool
    decreases s.len(),
{
    if s.len() == 0 || t.len() == 0 {
        s.len() < t.len()
    } else if s[0] != t[0] {
        s[0] < t[0]
    } else {
        lex_less(s.drop_first(), t.drop_first())
    }
}

proof fn lemma_pow256_pos(n: nat)
    ensures
        pow256(n) >= 1,
    decreases n,
{
    if n > 0 {
        lemma_pow256_pos((n - 1) as nat);
    }
}

/// A sequence of `n` bytes stands for a number below `256^n`.
pub proof fn lemma_be_value_bound(s: Seq<u8>)
    ensures
        be_value(s) < pow256(s.len()),
    decreases s.len(),
{
    if s.len() > 0 {
        lemma_be_value_bound(s.drop_last());
        let v = be_value(s.drop_last());
        let p = pow256((s.len() - 1) as nat);
        let b = s.last() as nat;
        assert(v * 256 + b < p * 256) by (nonlinear_arith)
            requires
                v < p,
                b < 256,
        ;
    }
}

/// The first byte weighs `256^(n-1)`.
proof fn lemma_be_value_front(s: Seq<u8>)
    requires
        s.len() > 0,
    ensures
        be_value(s) == s[0] as nat * pow256((s.len() - 1) as nat) + be_value(s.drop_first()),
    decreases s.len(),
{
    if s.len() == 1 {
        assert(be_value(s.drop_last()) == 0);
        assert(be_value(s.drop_first()) == 0);
        assert(s.last() == s[0]);
        assert(be_value(s) == s[0] as nat);
        assert(pow256(0) == 1);
        assert(s[0] as nat * pow256(0) == s[0] as nat);
    } else {
        let d = s.drop_last();
        lemma_be_value_front(d);
        assert(d.drop_first() =~= s.drop_first().drop_last());
        assert(s.drop_first().last() == s.last());
        let p = pow256((d.len() - 1) as nat);
        let a = s[0] as nat;
        let r = be_value(d.drop_first());
        let b = s.last() as nat;
        assert(d[0] == s[0]);
        assert(be_value(d) == a * p + r);
        assert(be_value(s) == be_value(d) * 256 + b);
        assert(s.drop_first().drop_last() =~= d.drop_first());
        assert(be_value(s.drop_first()) == r * 256 + b);
        assert(pow256((s.len() - 1) as nat) == 256 * p);
        assert((a * p + r) * 256 + b == a * (256 * p) + (r * 256 + b)) by (nonlinear_arith);
        assert(be_value(s) == a * pow256((s.len() - 1) as nat) + be_value(s.drop_first()));
    }
}

/// Equal-length byte strings sort as the numbers they stand for.
pub proof fn law_queue_keys_sort_as_ids(s: Seq<u8>, t: Seq<u8>)
    requires
        s.len() == t.len(),
    ensures
        lex_less(s, t) <==> be_value(s) < be_value(t),
    decreases s.len(),
{
    if s.len() > 0 {
        lemma_be_value_front(s);
        lemma_be_value_front(t);
        lemma_be_value_bound(s.drop_first());
        lemma_be_value_bound(t.drop_first());
        law_queue_keys_sort_as_ids(s.drop_first(), t.drop_first());
        let p = pow256((s.len() - 1) as nat);
        let a = s[0] as nat;
        let b = t[0] as nat;
        let x = be_value(s.drop_first());
        let y = be_value(t.drop_first());
        if a < b {
            assert(a * p + x < b * p + y) by (nonlinear_arith)
                requires
                    a < b,
                    x < p,
            ;
        } else if a > b {
            assert(b * p + y < a * p + x) by (nonlinear_arith)
                requires
                    b < a,
                    y < p,
            ;
        }
    }
}

/// The `n` big-endian bytes of `x`.
pub(crate) fn be_encode(x: u64, n: usize) -> (r: Vec<u8>)
    requires
        x < pow256(n as nat),
    ensures
        r@.len() == n,
        be_value(r@) == x,
{
    let mut out: Vec<u8> = Vec::new();
    let mut k: usize = 0;
    while k < n
        invariant
            k <= n,
            out@.len() == k,
            forall|j: int| 0 <= j < k ==> out@[j] == 0,
        decreases n - k,
    {
        out.push(0u8);
        k = k + 1;
    }
    let mut rest: u64 = x;
    let mut i: usize = n;
    proof {
        assert(be_value(out@.skip(n as int)) == 0);
        assert(pow256(0) == 1);
        assert((n - i) as nat == 0);
        assert(rest as nat * pow256(0) == rest as nat);
    }
    while i > 0
        invariant
            i <= n,
            out@.len() == n,
            x as nat == rest as nat * pow256((n - i) as nat) + be_value(out@.skip(i as int)),
        decreases i,
    {
        let b = (rest % 256) as u8;
        let next = rest / 256;
        let ghost tail = out@.skip(i as int);
        i = i - 1;
        out.set(i, b);
        proof {
            let s = out@.skip(i as int);
            assert(s.drop_first() =~= tail);
            assert(s[0] == b);
            lemma_be_value_front(s);
            let p = pow256((n - 1 - i) as nat);
            assert(pow256((n - i) as nat) == 256 * p);
            assert(rest as nat == next as nat * 256 + b as nat);
            assert(rest as nat * p == next as nat * (256 * p) + b as nat * p) by (nonlinear_arith)
                requires
                    rest as nat == next as nat * 256 + b as nat,
            ;
        }
        rest = next;
    }
    assert(out@.skip(0) =~= out@);
    proof {
        if rest > 0 {
            assert(rest as nat * pow256(n as nat) >= pow256(n as nat)) by (nonlinear_arith)
                requires
                    rest > 0,
            ;
        }
    }
    out
}

/// The store key of queued call `id`: its eight big-endian bytes.
pub fn queue_key(id: u64) -> (r: Vec<u8>)
    ensures
        r@.len() == 8,
        be_value(r@) == id,
{
    proof {
        assert(pow256(8) == 0x1_0000_0000_0000_0000) by {
            reveal_with_fuel(pow256, 9);
        }
    }
    be_encode(id, 8)
}

/// The eight id bytes of a key: its first eight bytes, a shorter key padded
/// with zeros at the end.
pub open spec fn id_bytes(key: Seq<u8>) -> Seq<u8> {
    Seq::new(8, |i: int| if i < key.len() { key[i] } else { 0u8 })
}

/// The id of a queued call, read from the first eight bytes of its key.
pub fn queue_id(key: &[u8]) -> (r: u64)
    ensures
        r == be_value(id_bytes(key@)),
{
    let ghost b = id_bytes(key@);
    let mut x: u64 = 0;
    let mut i: usize = 0;
    while i < 8
        invariant
            i <= 8,
            b == id_bytes(key@),
            x == be_value(b.take(i as int)),
        decreases 8 - i,
    {
        let byte: u8 = if i < key.len() {
            key[i]
        } else {
            0
        };
        proof {
            assert(byte == b[i as int]);
            lemma_be_value_bound(b.take(i as int));
            assert(b.take(i + 1).drop_last() =~= b.take(i as int));
            assert(pow256(i as nat) <= pow256(7)) by {
                lemma_pow256_mono(i as nat, 7);
            }
            assert(pow256(7) == 72057594037927936) by {
                reveal_with_fuel(pow256, 8);
            }
            assert(x as nat * 256 + 255 <= 18446744073709551615) by (nonlinear_arith)
                requires
                    x < 72057594037927936,
            ;
        }
        x = x * 256 + byte as u64;
        i = i + 1;
    }
    assert(b.take(8) =~= b);
    x
}

proof fn lemma_pow256_mono(a: nat, b: nat)
    requires
        a <= b,
    ensures
        pow256(a) <= pow256(b),
    decreases b,
{
    if a < b {
        lemma_pow256_mono(a, (b - 1) as nat);
        lemma_pow256_pos((b - 1) as nat);
    }
}

/// Reading back the key of a queued call gives its id.
pub proof fn law_queue_key_round_trip(key: Seq<u8>, id: u64)
    requires
        key.len() == 8,
        be_value(key) == id,
    ensures
        be_value(id_bytes(key)) == id,
{
    assert(id_bytes(key) =~= key);
}

} // verus!
