//! Connector reservations (OCPP 1.6 §5.13): one per connector, keyed by the
//! connector id, dropped once expired.

use vstd::prelude::*;

use crate::messages::Timestamp;
use crate::text::{format_i32, int_to_decimal};

verus! {

#[derive(Debug, Clone, PartialEq)]
pub struct Reservation {
    pub connector_id: i32,
    pub expiry_date: Timestamp,
    pub id_tag: String,
    pub reservation_id: i32,
    pub parent_id_tag: Option<String>,
}

/// The store key of a connector's reservation: the connector id in decimal.
pub fn reservation_key(connector_id: i32) -> (r: String)
    ensures
        r@ == int_to_decimal(connector_id as int),
{
    format_i32(connector_id)
}

/// A reservation has expired once its expiry date lies before `now`.
pub open spec fn is_expired_spec(res: Reservation, now: Timestamp) -> bool {
    res.expiry_date < now
}

/// Whether `res` has expired at `now`; an expired reservation is removed
/// when it is read.
pub fn is_expired(res: &Reservation, now: Timestamp) -> (r: bool)
    ensures
        r == is_expired_spec(*res, now),
{
    res.expiry_date < now
}

/// The reservations still valid at `now`, in their stored order.
pub open spec fn active_reservations_spec(rs: Seq<Reservation>, now: Timestamp) -> Seq<Reservation> {
    rs.filter(|r: Reservation| !is_expired_spec(r, now))
}

/// The reservations still valid at `now`, in their stored order.
pub fn active_reservations(all: Vec<Reservation>, now: Timestamp) -> (r: Vec<Reservation>)
    ensures
        r@ == active_reservations_spec(all@, now),
{
    let ghost rs = all@;
    let mut rest = all;
    let mut out: Vec<Reservation> = Vec::new();
    // Move the elements out back to front, then take them in order.
    let mut back: Vec<Reservation> = Vec::new();
    while rest.len() > 0
        invariant
            rest@ == rs.take(rest@.len() as int),
            rest@.len() + back@.len() == rs.len(),
            forall|j: int| 0 <= j < back@.len() ==> #[trigger] back@[j] == rs[rs.len() - 1 - j],
        decreases rest.len(),
    {
        let r = rest.pop().unwrap();
        back.push(r);
        proof {
            assert(rest@ =~= rs.take(rest@.len() as int));
        }
    }
    while back.len() > 0
        invariant
            back@.len() <= rs.len(),
            forall|j: int| 0 <= j < back@.len() ==> #[trigger] back@[j] == rs[rs.len() - 1 - j],
            out@ == rs.take(rs.len() - back@.len()).filter(|r: Reservation| !is_expired_spec(r, now)),
        decreases back.len(),
    {
        let ghost k = rs.len() - back@.len();
        let r = back.pop().unwrap();
        proof {
            assert(r == rs[k]);
            rs.take(k).lemma_filter_push(r, |r: Reservation| !is_expired_spec(r, now));
            assert(rs.take(k).push(r) =~= rs.take(k + 1));
        }
        if !is_expired(&r, now) {
            out.push(r);
        }
    }
    assert(rs.take(rs.len() as int) =~= rs);
    out
}

/// The first stored reservation with id `reservation_id`, expired or not.
pub open spec fn find_reservation_spec(rs: Seq<Reservation>, reservation_id: i32) -> Option<Reservation> {
    if exists|j: int| 0 <= j < rs.len() && rs[j].reservation_id == reservation_id {
        let j = choose|j: int|
            0 <= j < rs.len() && rs[j].reservation_id == reservation_id && forall|k: int|
                0 <= k < j ==> #[trigger] rs[k].reservation_id != reservation_id;
        Some(rs[j])
    } else {
        None
    }
}

/// Looks a reservation up by its id among the stored ones, in stored order.
pub fn find_reservation(all: Vec<Reservation>, reservation_id: i32) -> (r: Option<Reservation>)
    ensures
        r == find_reservation_spec(all@, reservation_id),
{
    let ghost rs = all@;
    let mut rest = all;
    let mut found: Option<Reservation> = None;
    // Walk from the back so that the earliest match is kept.
    while rest.len() > 0
        invariant
            rest@ == rs.take(rest@.len() as int),
            rest@.len() <= rs.len(),
            match found {
                Some(f) => exists|j: int|
                    rest@.len() <= j < rs.len() && rs[j] == f && f.reservation_id == reservation_id
                        && forall|k: int| rest@.len() <= k < j ==> #[trigger] rs[k].reservation_id != reservation_id,
                None => forall|k: int| rest@.len() <= k < rs.len() ==> #[trigger] rs[k].reservation_id != reservation_id,
            },
        decreases rest@.len(),
    {
        let r = rest.pop().unwrap();
        proof {
            assert(rest@ =~= rs.take(rest@.len() as int));
            assert(r == rs[rest@.len() as int]);
        }
        if r.reservation_id == reservation_id {
            found = Some(r);
        }
    }
    proof {
        if found is Some {
            let f = found->0;
            {
                let j = choose|j: int|
                    0 <= j < rs.len() && rs[j] == f && f.reservation_id == reservation_id && forall|k: int|
                        0 <= k < j ==> #[trigger] rs[k].reservation_id != reservation_id;
                let c = choose|c: int|
                    0 <= c < rs.len() && rs[c].reservation_id == reservation_id && forall|k: int|
                        0 <= k < c ==> #[trigger] rs[k].reservation_id != reservation_id;
                assert(c == j) by {
                    if c < j {
                        assert(rs[c].reservation_id != reservation_id);
                    }
                    if j < c {
                        assert(rs[j].reservation_id != reservation_id);
                    }
                }
            }
        }
    }
    found
}

/// A reservation holds up to and including its expiry instant and has
/// expired only after it; the reservations still valid at `now` are exactly
/// the stored ones that have not expired, in stored order.
pub proof fn law_active_reservations(rs: Seq<Reservation>, now: Timestamp)
    ensures
        forall|r: Reservation| #[trigger] is_expired_spec(r, now) <==> now > r.expiry_date,
        forall|i: int|
            0 <= i < active_reservations_spec(rs, now).len() ==> (#[trigger] active_reservations_spec(rs, now)[i]).expiry_date
                >= now && rs.contains(active_reservations_spec(rs, now)[i]),
        forall|i: int|
            0 <= i < rs.len() && (#[trigger] rs[i]).expiry_date >= now ==> active_reservations_spec(rs, now).contains(
                rs[i],
            ),
{
    let p = |r: Reservation| !is_expired_spec(r, now);
    assert forall|i: int| 0 <= i < rs.filter(p).len() implies (#[trigger] rs.filter(p)[i]).expiry_date >= now
        && rs.contains(rs.filter(p)[i]) by {
        rs.lemma_filter_pred(p, i);
        rs.lemma_filter_contains_rev(p, rs.filter(p)[i]);
    }
    assert forall|i: int| 0 <= i < rs.len() && (#[trigger] rs[i]).expiry_date >= now implies rs.filter(p).contains(
        rs[i],
    ) by {
        rs.lemma_filter_contains(p, i);
    }
}

/// Looking a reservation up by id finds the first stored one with that id,
/// and finds nothing exactly when none has it.
pub proof fn law_find_reservation(rs: Seq<Reservation>, reservation_id: i32)
    ensures
        find_reservation_spec(rs, reservation_id) is None <==> forall|k: int|
            0 <= k < rs.len() ==> #[trigger] rs[k].reservation_id != reservation_id,
        find_reservation_spec(rs, reservation_id) matches Some(f) ==> exists|j: int|
            #![trigger rs[j]]
            0 <= j < rs.len() && rs[j] == f && f.reservation_id == reservation_id && forall|k: int|
                0 <= k < j ==> #[trigger] rs[k].reservation_id != reservation_id,
{
    if exists|j: int| 0 <= j < rs.len() && rs[j].reservation_id == reservation_id {
        let w = choose|j: int| 0 <= j < rs.len() && rs[j].reservation_id == reservation_id;
        lemma_first_with_reservation_id(rs, reservation_id, w);
    }
}

proof fn lemma_first_with_reservation_id(rs: Seq<Reservation>, reservation_id: i32, w: int)
    requires
        0 <= w < rs.len(),
        rs[w].reservation_id == reservation_id,
    ensures
        exists|j: int|
            0 <= j < rs.len() && rs[j].reservation_id == reservation_id && forall|k: int|
                0 <= k < j ==> #[trigger] rs[k].reservation_id != reservation_id,
    decreases w,
{
    if exists|k: int| 0 <= k < w && rs[k].reservation_id == reservation_id {
        let k = choose|k: int| 0 <= k < w && rs[k].reservation_id == reservation_id;
        lemma_first_with_reservation_id(rs, reservation_id, k);
    } else {
        assert(forall|k: int| 0 <= k < w ==> #[trigger] rs[k].reservation_id != reservation_id);
    }
}

} // verus!
