//! Smart charging: which rate limit a set of charging profiles imposes at a
//! given moment (OCPP 1.6 §7).

use vstd::prelude::*;

use crate::enums::ChargingProfilePurpose;
use crate::messages::{ChargingProfile, ChargingSchedulePeriod, Timestamp};

verus! {

/// Period `j` is the one in force `elapsed` seconds into a schedule: it has
/// started, no other started period starts later, and among periods that start
/// at the same second it is the last one listed.
pub open spec fn is_current_period<L>(ps: Seq<ChargingSchedulePeriod<L>>, elapsed: i32, j: int) -> bool {
    &&& 0 <= j < ps.len()
    &&& ps[j].start_period <= elapsed
    &&& forall|k: int|
        #![trigger ps[k]]
        0 <= k < ps.len() && ps[k].start_period <= elapsed ==> ps[k].start_period < ps[j].start_period
            || (ps[k].start_period == ps[j].start_period && k <= j)
}

/// The limit of the period in force `elapsed` seconds into a schedule; `None`
/// when no period has started yet.
pub open spec fn period_limit<L>(ps: Seq<ChargingSchedulePeriod<L>>, elapsed: i32) -> Option<L> {
    if exists|j: int| is_current_period(ps, elapsed, j) {
        Some(ps[choose|j: int| is_current_period(ps, elapsed, j)].limit)
    } else {
        None
    }
}

/// When a profile's schedule starts: its own start, else the profile's
/// validity start, else `now`.
pub open spec fn schedule_start<L>(profile: ChargingProfile<L>, now: Timestamp) -> Timestamp {
    match profile.charging_schedule.start_schedule {
        Some(s) => s,
        None => match profile.valid_from {
            Some(f) => f,
            None => now,
        },
    }
}

/// The whole seconds in a span of nanoseconds, rounded toward zero.
pub open spec fn whole_seconds(nanos: int) -> int {
    if nanos >= 0 {
        nanos / 1_000_000_000
    } else {
        -((-nanos) / 1_000_000_000)
    }
}

/// Whole seconds elapsed since the schedule started, rounded toward zero,
/// as a wrapping 32-bit count.
pub open spec fn elapsed_seconds<L>(profile: ChargingProfile<L>, now: Timestamp) -> i32 {
    whole_seconds(now - schedule_start(profile, now)) as i32
}

/// Whole seconds from `start` to `now`, rounded toward zero, as a wrapping
/// 32-bit count.
fn seconds_between(now: Timestamp, start: Timestamp) -> (r: i32)
    ensures
        r == whole_seconds(now - start) as i32,
{
    if now >= start {
        // The span may exceed `i128`; it always fits `u128`.
        let d: u128 = if start >= 0 || now < 0 {
            (now - start) as u128
        } else {
            (now as u128) + ((-(start + 1)) as u128) + 1
        };
        let q: u128 = d / 1_000_000_000;
        (q as i128) as i32
    } else {
        let d: u128 = if now >= 0 || start < 0 {
            (start - now) as u128
        } else {
            (start as u128) + ((-(now + 1)) as u128) + 1
        };
        let q: u128 = d / 1_000_000_000;
        (-(q as i128)) as i32
    }
}

/// The limit a single profile imposes at `now`: none outside its validity
/// window, before its schedule starts, or after the schedule's duration.
pub open spec fn profile_limit<L>(profile: ChargingProfile<L>, now: Timestamp) -> Option<L> {
    let elapsed = elapsed_seconds(profile, now);
    if profile.valid_from matches Some(from) && now < from {
        None
    } else if profile.valid_to matches Some(to) && now > to {
        None
    } else if elapsed < 0 {
        None
    } else if profile.charging_schedule.duration matches Some(d) && elapsed >= d {
        None
    } else {
        period_limit(profile.charging_schedule.charging_schedule_period@, elapsed)
    }
}

/// Precedence of a profile purpose: the charge-point maximum first, then the
/// default transaction profile, then the transaction profile.
pub open spec fn purpose_rank_spec(p: ChargingProfilePurpose) -> i32 {
    match p {
        ChargingProfilePurpose::ChargePointMaxProfile => 3,
        ChargingProfilePurpose::TxDefaultProfile => 2,
        ChargingProfilePurpose::TxProfile => 1,
    }
}

/// Profile `a` takes precedence over profile `b`: higher purpose rank, or the
/// same rank and a higher stack level.
pub open spec fn outranks<L>(a: ChargingProfile<L>, b: ChargingProfile<L>) -> bool {
    purpose_rank_spec(a.charging_profile_purpose) > purpose_rank_spec(b.charging_profile_purpose)
        || (purpose_rank_spec(a.charging_profile_purpose) == purpose_rank_spec(
        b.charging_profile_purpose,
    ) && a.stack_level > b.stack_level)
}

/// Profile `j` decides the combined limit at `now`: it imposes a limit, and
/// every other profile that imposes one is outranked by it or, at equal rank
/// and stack level, listed after it.
pub open spec fn is_deciding_profile<L>(ps: Seq<ChargingProfile<L>>, now: Timestamp, j: int) -> bool {
    &&& 0 <= j < ps.len()
    &&& profile_limit(ps[j], now) is Some
    &&& forall|k: int|
        #![trigger ps[k]]
        0 <= k < ps.len() && profile_limit(ps[k], now) is Some ==> outranks(ps[j], ps[k]) || (!outranks(
            ps[k],
            ps[j],
        ) && j <= k)
}

/// The limit a set of profiles imposes at `now`.
pub open spec fn combined_limit<L>(ps: Seq<ChargingProfile<L>>, now: Timestamp) -> Option<L> {
    if exists|j: int| is_deciding_profile(ps, now, j) {
        profile_limit(ps[choose|j: int| is_deciding_profile(ps, now, j)], now)
    } else {
        None
    }
}

proof fn lemma_current_period_unique<L>(ps: Seq<ChargingSchedulePeriod<L>>, e: i32, a: int, b: int)
    requires
        is_current_period(ps, e, a),
        is_current_period(ps, e, b),
    ensures
        a == b,
{
    assert(ps[a].start_period <= e);
    assert(ps[b].start_period <= e);
}

proof fn lemma_deciding_profile_unique<L>(ps: Seq<ChargingProfile<L>>, now: Timestamp, a: int, b: int)
    requires
        is_deciding_profile(ps, now, a),
        is_deciding_profile(ps, now, b),
    ensures
        a == b,
{
    assert(profile_limit(ps[a], now) is Some);
    assert(profile_limit(ps[b], now) is Some);
}

proof fn lemma_deciding_profile_exists<L>(ps: Seq<ChargingProfile<L>>, now: Timestamp)
    requires
        exists|k: int| 0 <= k < ps.len() && profile_limit(#[trigger] ps[k], now) is Some,
    ensures
        exists|j: int| is_deciding_profile(ps, now, j),
    decreases ps.len(),
{
    let d = ps.drop_last();
    let last = ps.len() - 1;
    if exists|k: int| 0 <= k < d.len() && profile_limit(#[trigger] d[k], now) is Some {
        lemma_deciding_profile_exists(d, now);
        let j = choose|j: int| is_deciding_profile(d, now, j);
        assert(d[j] == ps[j]);
        if profile_limit(ps[last], now) is Some && outranks(ps[last], ps[j]) {
            assert forall|k: int|
                0 <= k < ps.len() && profile_limit(#[trigger] ps[k], now) is Some implies outranks(
                ps[last],
                ps[k],
            ) || (!outranks(ps[k], ps[last]) && last <= k) by {
                if k < last {
                    assert(d[k] == ps[k]);
                }
            }
            assert(is_deciding_profile(ps, now, last));
        } else {
            assert forall|k: int|
                0 <= k < ps.len() && profile_limit(#[trigger] ps[k], now) is Some implies outranks(
                ps[j],
                ps[k],
            ) || (!outranks(ps[k], ps[j]) && j <= k) by {
                if k < last {
                    assert(d[k] == ps[k]);
                }
            }
            assert(is_deciding_profile(ps, now, j));
        }
    } else {
        let w = choose|k: int| 0 <= k < ps.len() && profile_limit(#[trigger] ps[k], now) is Some;
        if w < last {
            assert(d[w] == ps[w]);
        }
        assert forall|k: int|
            0 <= k < ps.len() && profile_limit(#[trigger] ps[k], now) is Some implies outranks(ps[last], ps[k])
            || (!outranks(ps[k], ps[last]) && last <= k) by {
            if k < last {
                assert(d[k] == ps[k]);
            }
        }
        assert(is_deciding_profile(ps, now, last));
    }
}

/// A set of profiles imposes a limit exactly when one of them does; the
/// limit is then that of a profile no other applicable profile outranks.
pub proof fn law_combined_limit_comes_from_a_profile<L>(ps: Seq<ChargingProfile<L>>, now: Timestamp)
    ensures
        combined_limit(ps, now) is Some <==> exists|k: int| 0 <= k < ps.len() && profile_limit(#[trigger] ps[k], now) is Some,
        combined_limit(ps, now) matches Some(l) ==> exists|j: int|
            0 <= j < ps.len() && profile_limit(#[trigger] ps[j], now) == Some(l) && forall|k: int|
                0 <= k < ps.len() && profile_limit(#[trigger] ps[k], now) is Some ==> !outranks(ps[k], ps[j]),
{
    if exists|k: int| 0 <= k < ps.len() && profile_limit(#[trigger] ps[k], now) is Some {
        lemma_deciding_profile_exists(ps, now);
        let j = choose|j: int| is_deciding_profile(ps, now, j);
        assert forall|k: int| 0 <= k < ps.len() && profile_limit(#[trigger] ps[k], now) is Some implies !outranks(
            ps[k],
            ps[j],
        ) by {
            assert(is_deciding_profile(ps, now, j));
        }
    }
}

proof fn lemma_current_period_exists<L>(ps: Seq<ChargingSchedulePeriod<L>>, elapsed: i32)
    requires
        exists|k: int| 0 <= k < ps.len() && #[trigger] ps[k].start_period <= elapsed,
    ensures
        exists|j: int| is_current_period(ps, elapsed, j),
    decreases ps.len(),
{
    let d = ps.drop_last();
    let last = ps.len() - 1;
    if exists|k: int| 0 <= k < d.len() && #[trigger] d[k].start_period <= elapsed {
        lemma_current_period_exists(d, elapsed);
        let j = choose|j: int| is_current_period(d, elapsed, j);
        assert(d[j] == ps[j]);
        if ps[last].start_period <= elapsed && ps[j].start_period <= ps[last].start_period {
            assert forall|k: int| 0 <= k < ps.len() && #[trigger] ps[k].start_period <= elapsed implies ps[k].start_period
                < ps[last].start_period || (ps[k].start_period == ps[last].start_period && k <= last) by {
                if k < last {
                    assert(d[k] == ps[k]);
                }
            }
            assert(is_current_period(ps, elapsed, last));
        } else {
            assert forall|k: int| 0 <= k < ps.len() && #[trigger] ps[k].start_period <= elapsed implies ps[k].start_period
                < ps[j].start_period || (ps[k].start_period == ps[j].start_period && k <= j) by {
                if k < last {
                    assert(d[k] == ps[k]);
                }
            }
            assert(is_current_period(ps, elapsed, j));
        }
    } else {
        let w = choose|k: int| 0 <= k < ps.len() && #[trigger] ps[k].start_period <= elapsed;
        if w < last {
            assert(d[w] == ps[w]);
        }
        assert forall|k: int| 0 <= k < ps.len() && #[trigger] ps[k].start_period <= elapsed implies ps[k].start_period
            < ps[last].start_period || (ps[k].start_period == ps[last].start_period && k <= last) by {
            if k < last {
                assert(d[k] == ps[k]);
            }
        }
        assert(is_current_period(ps, elapsed, last));
    }
}

/// Once any period of a schedule has started, some limit is in force: that
/// of the latest-starting period that has started.
pub proof fn law_started_schedule_has_a_limit<L>(ps: Seq<ChargingSchedulePeriod<L>>, elapsed: i32)
    ensures
        period_limit(ps, elapsed) is Some <==> exists|k: int| 0 <= k < ps.len() && #[trigger] ps[k].start_period <= elapsed,
{
    if exists|k: int| 0 <= k < ps.len() && #[trigger] ps[k].start_period <= elapsed {
        lemma_current_period_exists(ps, elapsed);
    } else {
        if exists|j: int| is_current_period(ps, elapsed, j) {
            let j = choose|j: int| is_current_period(ps, elapsed, j);
            assert(ps[j].start_period <= elapsed);
        }
    }
}

/// No two periods of a schedule start at the same second.
pub open spec fn distinct_starts<L>(ps: Seq<ChargingSchedulePeriod<L>>) -> bool {
    forall|a: int, b: int|
        0 <= a < ps.len() && 0 <= b < ps.len() && a != b ==> #[trigger] ps[a].start_period
            != #[trigger] ps[b].start_period
}

proof fn lemma_found_in_permutation<A>(ps: Seq<A>, qs: Seq<A>, i: int) -> (k: int)
    requires
        ps.to_multiset() == qs.to_multiset(),
        0 <= i < ps.len(),
    ensures
        0 <= k < qs.len(),
        qs[k] == ps[i],
{
    vstd::seq_lib::to_multiset_contains(ps, ps[i]);
    vstd::seq_lib::to_multiset_contains(qs, ps[i]);
    assert(ps.contains(ps[i]));
    choose|k: int| 0 <= k < qs.len() && qs[k] == ps[i]
}

/// The order in which a schedule lists its periods does not matter when
/// no two of them start at the same second.
pub proof fn law_period_order_does_not_matter<L>(
    ps: Seq<ChargingSchedulePeriod<L>>,
    qs: Seq<ChargingSchedulePeriod<L>>,
    elapsed: i32,
)
    requires
        ps.to_multiset() == qs.to_multiset(),
        distinct_starts(ps),
    ensures
        period_limit(ps, elapsed) == period_limit(qs, elapsed),
{
    if exists|k: int| 0 <= k < ps.len() && #[trigger] ps[k].start_period <= elapsed {
        lemma_current_period_exists(ps, elapsed);
        let j = choose|j: int| is_current_period(ps, elapsed, j);
        let kj = lemma_found_in_permutation(ps, qs, j);
        assert(qs[kj].start_period <= elapsed);
        lemma_current_period_exists(qs, elapsed);
        let k = choose|k: int| is_current_period(qs, elapsed, k);
        let i = lemma_found_in_permutation(qs, ps, k);
        assert(qs[kj].start_period <= qs[k].start_period);
        assert(ps[i].start_period <= elapsed);
        assert(ps[i].start_period <= ps[j].start_period);
        assert(i == j) by {
            if i != j {
                assert(ps[i].start_period != ps[j].start_period);
            }
        }
    } else {
        if exists|k: int| is_current_period(qs, elapsed, k) {
            let k = choose|k: int| is_current_period(qs, elapsed, k);
            let i = lemma_found_in_permutation(qs, ps, k);
            assert(ps[i].start_period <= elapsed);
        }
        if exists|j: int| is_current_period(ps, elapsed, j) {
            let j = choose|j: int| is_current_period(ps, elapsed, j);
            assert(ps[j].start_period <= elapsed);
        }
    }
}

/// A profile imposes the same limit whatever the order of its periods, when
/// no two of them start at the same second.
pub proof fn law_evaluate_ignores_period_order<L>(p: ChargingProfile<L>, q: ChargingProfile<L>, now: Timestamp)
    requires
        p.valid_from == q.valid_from,
        p.valid_to == q.valid_to,
        p.charging_schedule.start_schedule == q.charging_schedule.start_schedule,
        p.charging_schedule.duration == q.charging_schedule.duration,
        p.charging_schedule.charging_schedule_period@.to_multiset()
            == q.charging_schedule.charging_schedule_period@.to_multiset(),
        distinct_starts(p.charging_schedule.charging_schedule_period@),
    ensures
        profile_limit(p, now) == profile_limit(q, now),
{
    law_period_order_does_not_matter(
        p.charging_schedule.charging_schedule_period@,
        q.charging_schedule.charging_schedule_period@,
        elapsed_seconds(p, now),
    );
}

pub struct SmartChargingEngine;

impl SmartChargingEngine {
    /// The limit `profile` imposes at `now`, if any.
    pub fn evaluate<L: Copy>(profile: &ChargingProfile<L>, now: Timestamp) -> (r: Option<L>)
        ensures
            r == profile_limit(*profile, now),
    {
        let schedule = &profile.charging_schedule;
        let start_time = match schedule.start_schedule {
            Some(s) => s,
            None => match profile.valid_from {
                Some(f) => f,
                None => now,
            },
        };
        if let Some(from) = profile.valid_from {
            if now < from {
                return None;
            }
        }
        if let Some(to) = profile.valid_to {
            if now > to {
                return None;
            }
        }
        let elapsed = seconds_between(now, start_time);
        if elapsed < 0 {
            return None;
        }
        if let Some(duration) = schedule.duration {
            if elapsed >= duration {
                return None;
            }
        }
        let periods = &schedule.charging_schedule_period;
        let ghost ps = periods@;
        let mut best: Option<usize> = None;
        let mut i: usize = 0;
        while i < periods.len()
            invariant
                ps == periods@,
                i <= ps.len(),
                match best {
                    Some(j) => is_current_period(ps.subrange(0, i as int), elapsed, j as int),
                    None => forall|k: int| 0 <= k < i ==> #[trigger] ps[k].start_period > elapsed,
                },
            decreases ps.len() - i,
        {
            let p = &periods[i];
            if p.start_period <= elapsed {
                let take = match best {
                    Some(j) => periods[j].start_period <= p.start_period,
                    None => true,
                };
                if take {
                    best = Some(i);
                }
            }
            proof {
                let s = ps.subrange(0, i + 1);
                match best {
                    Some(j) => {
                        assert forall|k: int|
                            0 <= k < s.len() && #[trigger] s[k].start_period <= elapsed implies s[k].start_period
                            < s[j as int].start_period || (s[k].start_period == s[j as int].start_period && k
                            <= j) by {
                            if k < i {
                                assert(s[k] == ps.subrange(0, i as int)[k]);
                            }
                        }
                    },
                    None => {},
                }
            }
            i = i + 1;
        }
        assert(ps.subrange(0, ps.len() as int) =~= ps);
        match best {
            Some(j) => {
                proof {
                    let c = choose|c: int| is_current_period(ps, elapsed, c);
                    lemma_current_period_unique(ps, elapsed, c, j as int);
                }
                Some(periods[j].limit)
            },
            None => {
                proof {
                    assert forall|j: int| !is_current_period(ps, elapsed, j) by {
                        if 0 <= j < ps.len() {
                            assert(ps[j].start_period > elapsed);
                        }
                    }
                }
                None
            },
        }
    }

    /// The limit a set of profiles imposes at `now`: that of the highest
    /// ranked profile (by purpose, then stack level) that imposes one; among
    /// equally ranked profiles the one listed first.
    pub fn evaluate_combined<L: Copy>(profiles: &[ChargingProfile<L>], now: Timestamp) -> (r: Option<L>)
        ensures
            r == combined_limit(profiles@, now),
    {
        let ghost ps = profiles@;
        let mut best: Option<(usize, L)> = None;
        let mut i: usize = 0;
        while i < profiles.len()
            invariant
                ps == profiles@,
                i <= ps.len(),
                match best {
                    Some((j, l)) => is_deciding_profile(ps.subrange(0, i as int), now, j as int)
                        && profile_limit(ps[j as int], now) == Some(l),
                    None => forall|k: int| 0 <= k < i ==> profile_limit(#[trigger] ps[k], now) is None,
                },
            decreases ps.len() - i,
        {
            let p = &profiles[i];
            match Self::evaluate(p, now) {
                Some(l) => {
                    let take = match best {
                        Some((j, _)) => {
                            let q = &profiles[j];
                            let rp = Self::purpose_rank(p.charging_profile_purpose);
                            let rq = Self::purpose_rank(q.charging_profile_purpose);
                            rp > rq || (rp == rq && p.stack_level > q.stack_level)
                        },
                        None => true,
                    };
                    if take {
                        best = Some((i, l));
                    }
                },
                None => {},
            }
            proof {
                let s = ps.subrange(0, i + 1);
                match best {
                    Some((j, _)) => {
                        assert forall|k: int|
                            0 <= k < s.len() && profile_limit(#[trigger] s[k], now) is Some implies outranks(
                            s[j as int],
                            s[k],
                        ) || (!outranks(s[k], s[j as int]) && j <= k) by {
                            if k < i {
                                assert(s[k] == ps.subrange(0, i as int)[k]);
                            }
                        }
                    },
                    None => {},
                }
            }
            i = i + 1;
        }
        assert(ps.subrange(0, ps.len() as int) =~= ps);
        match best {
            Some((j, l)) => {
                proof {
                    let c = choose|c: int| is_deciding_profile(ps, now, c);
                    lemma_deciding_profile_unique(ps, now, c, j as int);
                }
                Some(l)
            },
            None => {
                proof {
                    assert forall|j: int| !is_deciding_profile(ps, now, j) by {
                        if 0 <= j < ps.len() {
                            assert(profile_limit(ps[j], now) is None);
                        }
                    }
                }
                None
            },
        }
    }

    /// Precedence of a profile purpose (higher wins).
    pub fn purpose_rank(p: ChargingProfilePurpose) -> (r: i32)
        ensures
            r == purpose_rank_spec(p),
    {
        match p {
            ChargingProfilePurpose::ChargePointMaxProfile => 3,
            ChargingProfilePurpose::TxDefaultProfile => 2,
            ChargingProfilePurpose::TxProfile => 1,
        }
    }
}

/// The profiles that govern a connector: those installed on it and those
/// installed on the charge point as a whole (connector 0), in stored order.
pub open spec fn applicable_profiles_spec<L>(all: Seq<(i32, ChargingProfile<L>)>, connector_id: i32) -> Seq<
    ChargingProfile<L>,
>
    decreases all.len(),
{
    if all.len() == 0 {
        Seq::empty()
    } else {
        let prev = applicable_profiles_spec(all.drop_last(), connector_id);
        let e = all.last();
        if e.0 == 0 || e.0 == connector_id {
            prev.push(e.1)
        } else {
            prev
        }
    }
}

/// The profiles that govern `connector_id`, out of `(connector, profile)`
/// pairs as the profile store lists them.
pub fn applicable_profiles<L>(all: Vec<(i32, ChargingProfile<L>)>, connector_id: i32) -> (r: Vec<
    ChargingProfile<L>,
>)
    ensures
        r@ == applicable_profiles_spec(all@, connector_id),
{
    let ghost xs = all@;
    let mut rest = all;
    let mut back: Vec<(i32, ChargingProfile<L>)> = Vec::new();
    while rest.len() > 0
        invariant
            rest@ == xs.take(rest@.len() as int),
            rest@.len() + back@.len() == xs.len(),
            forall|j: int| 0 <= j < back@.len() ==> #[trigger] back@[j] == xs[xs.len() - 1 - j],
        decreases rest.len(),
    {
        let e = rest.pop().unwrap();
        back.push(e);
        proof {
            assert(rest@ =~= xs.take(rest@.len() as int));
        }
    }
    let mut out: Vec<ChargingProfile<L>> = Vec::new();
    while back.len() > 0
        invariant
            back@.len() <= xs.len(),
            forall|j: int| 0 <= j < back@.len() ==> #[trigger] back@[j] == xs[xs.len() - 1 - j],
            out@ == applicable_profiles_spec(xs.take(xs.len() - back@.len()), connector_id),
        decreases back.len(),
    {
        let ghost k = xs.len() - back@.len();
        let (cid, p) = back.pop().unwrap();
        proof {
            assert(xs.take(k + 1).drop_last() =~= xs.take(k));
        }
        if cid == 0 || cid == connector_id {
            out.push(p);
        }
    }
    assert(xs.take(xs.len() as int) =~= xs);
    out
}

/// The limit in force on `connector_id` at `now`, out of the installed
/// `(connector, profile)` pairs.
pub open spec fn connector_limit<L>(all: Seq<(i32, ChargingProfile<L>)>, connector_id: i32, now: Timestamp) -> Option<L> {
    combined_limit(applicable_profiles_spec(all, connector_id), now)
}

impl SmartChargingEngine {
    /// The limit in force on `connector_id` at `now`.
    pub fn limit_at<L: Copy>(all: Vec<(i32, ChargingProfile<L>)>, connector_id: i32, now: Timestamp) -> (r: Option<L>)
        ensures
            r == connector_limit(all@, connector_id, now),
    {
        let applicable = applicable_profiles(all, connector_id);
        Self::evaluate_combined(applicable.as_slice(), now)
    }
}

/// A schedule with its own start `s` runs from that start, whatever the
/// profile's validity start: within the validity window and without a
/// duration, the limit at `now` is that of the period in force the whole
/// seconds (rounded toward zero) from `s` to `now`; a second or more before
/// `s` there is none (the count of seconds is a 32-bit one, as in the
/// protocol's `startPeriod`).
pub proof fn law_schedule_runs_from_its_start<L>(p: ChargingProfile<L>, now: Timestamp, s: Timestamp)
    requires
        p.charging_schedule.start_schedule == Some(s),
        p.valid_from matches Some(f) ==> f <= now,
        p.valid_to matches Some(t) ==> now <= t,
        p.charging_schedule.duration is None,
    ensures
        now - s <= -1_000_000_000 && i32::MIN <= whole_seconds(now - s) ==> profile_limit(p, now) is None,
        0 <= now - s && whole_seconds(now - s) <= i32::MAX ==> profile_limit(p, now) == period_limit(
            p.charging_schedule.charging_schedule_period@,
            whole_seconds(now - s) as i32,
        ),
{
    if now - s <= -1_000_000_000 {
        assert(whole_seconds(now - s) <= -1);
    }
}

/// A schedule without its own start runs from the profile's validity start
/// `f`, or from `now` itself when the profile has none.
pub proof fn law_schedule_without_start<L>(p: ChargingProfile<L>, now: Timestamp)
    requires
        p.charging_schedule.start_schedule is None,
        p.valid_from matches Some(f) ==> f <= now,
        p.valid_to matches Some(t) ==> now <= t,
        p.charging_schedule.duration is None,
    ensures
        p.valid_from is None ==> profile_limit(p, now) == period_limit(p.charging_schedule.charging_schedule_period@, 0),
        p.valid_from is Some && whole_seconds(now - p.valid_from->0) <= i32::MAX ==> profile_limit(p, now)
            == period_limit(
            p.charging_schedule.charging_schedule_period@,
            whole_seconds(now - p.valid_from->0) as i32,
        ),
{
}

/// Two profiles that differ only in when they become valid impose the same
/// limit at any moment both are valid, when their schedules have their own
/// start: the validity start only bounds validity.
pub proof fn law_valid_from_only_bounds_validity<L>(p: ChargingProfile<L>, q: ChargingProfile<L>, now: Timestamp)
    requires
        p.charging_schedule.start_schedule is Some,
        p.charging_schedule == q.charging_schedule,
        p.valid_to == q.valid_to,
        p.valid_from matches Some(f) ==> f <= now,
        q.valid_from matches Some(f) ==> f <= now,
    ensures
        profile_limit(p, now) == profile_limit(q, now),
{
}

/// Which profile takes precedence: a charge-point maximum over any other
/// purpose, a default transaction profile over a transaction profile, and
/// between profiles of the same purpose the higher stack level. Precedence
/// never goes both ways.
pub proof fn law_profile_precedence<L>(a: ChargingProfile<L>, b: ChargingProfile<L>)
    ensures
        a.charging_profile_purpose == ChargingProfilePurpose::ChargePointMaxProfile
            && b.charging_profile_purpose != ChargingProfilePurpose::ChargePointMaxProfile ==> outranks(a, b),
        a.charging_profile_purpose == ChargingProfilePurpose::TxDefaultProfile && b.charging_profile_purpose
            == ChargingProfilePurpose::TxProfile ==> outranks(a, b),
        a.charging_profile_purpose == b.charging_profile_purpose ==> (outranks(a, b) <==> a.stack_level
            > b.stack_level),
        outranks(a, b) ==> !outranks(b, a),
        b.charging_profile_purpose == ChargingProfilePurpose::TxProfile && a.charging_profile_purpose
            != ChargingProfilePurpose::TxProfile ==> outranks(a, b),
{
}

/// In a schedule whose periods start at strictly increasing offsets, the
/// limit `elapsed` seconds in is that of the last period that has started:
/// the one starting at or before `elapsed` whose successor, if any, starts
/// after it.
pub proof fn law_sorted_schedule_limit<L>(ps: Seq<ChargingSchedulePeriod<L>>, elapsed: i32, j: int)
    requires
        forall|a: int, b: int| 0 <= a < b < ps.len() ==> #[trigger] ps[a].start_period < #[trigger] ps[b].start_period,
        0 <= j < ps.len(),
        ps[j].start_period <= elapsed,
        j + 1 == ps.len() || elapsed < ps[j + 1].start_period,
    ensures
        period_limit(ps, elapsed) == Some(ps[j].limit),
{
    assert forall|k: int|
        #![trigger ps[k]]
        0 <= k < ps.len() && ps[k].start_period <= elapsed implies ps[k].start_period < ps[j].start_period
            || (ps[k].start_period == ps[j].start_period && k <= j) by {
        if k > j + 1 {
            assert(ps[j + 1].start_period < ps[k].start_period);
        }
        if k < j {
            assert(ps[k].start_period < ps[j].start_period);
        }
    }
    assert(is_current_period(ps, elapsed, j));
    let c = choose|c: int| is_current_period(ps, elapsed, c);
    lemma_current_period_unique(ps, elapsed, c, j);
}

/// A profile imposes no limit before it becomes valid, after it stops being
/// valid, or once its schedule's duration has run out; within its duration
/// the limit is that of the period in force.
pub proof fn law_profile_validity_and_duration<L>(p: ChargingProfile<L>, now: Timestamp, s: Timestamp, d: i32)
    requires
        p.charging_schedule.start_schedule == Some(s),
        p.charging_schedule.duration == Some(d),
    ensures
        p.valid_from matches Some(f) && now < f ==> profile_limit(p, now) is None,
        p.valid_to matches Some(t) && now > t ==> profile_limit(p, now) is None,
        (p.valid_from matches Some(f) ==> f <= now) && (p.valid_to matches Some(t) ==> now <= t) && 0 <= now - s
            && whole_seconds(now - s) <= i32::MAX ==> {
            &&& whole_seconds(now - s) >= d ==> profile_limit(p, now) is None
            &&& whole_seconds(now - s) < d ==> profile_limit(p, now) == period_limit(
                p.charging_schedule.charging_schedule_period@,
                whole_seconds(now - s) as i32,
            )
        },
{
}

/// The profiles that govern a connector are exactly those installed on it
/// and those installed on connector 0, the whole charge point.
pub proof fn law_applicable_profiles<L>(all: Seq<(i32, ChargingProfile<L>)>, connector_id: i32)
    ensures
        forall|k: int|
            #![trigger applicable_profiles_spec(all, connector_id)[k]]
            0 <= k < applicable_profiles_spec(all, connector_id).len() ==> exists|j: int|
                #![trigger all[j]]
                0 <= j < all.len() && (all[j].0 == 0 || all[j].0 == connector_id) && all[j].1
                    == applicable_profiles_spec(all, connector_id)[k],
        forall|j: int|
            0 <= j < all.len() && (#[trigger] all[j]).0 == 0 || 0 <= j < all.len() && all[j].0 == connector_id
                ==> applicable_profiles_spec(all, connector_id).contains(all[j].1),
    decreases all.len(),
{
    if all.len() > 0 {
        let d = all.drop_last();
        law_applicable_profiles(d, connector_id);
        assert forall|k: int| #![trigger applicable_profiles_spec(all, connector_id)[k]]
            0 <= k < applicable_profiles_spec(all, connector_id).len() implies exists|j: int|
                #![trigger all[j]]
                0 <= j < all.len() && (all[j].0 == 0 || all[j].0 == connector_id) && all[j].1
                    == applicable_profiles_spec(all, connector_id)[k] by {
            if k < applicable_profiles_spec(d, connector_id).len() {
                assert(applicable_profiles_spec(all, connector_id)[k] == applicable_profiles_spec(d, connector_id)[k]);
                let j = choose|j: int|
                    #![trigger d[j]]
                    0 <= j < d.len() && (d[j].0 == 0 || d[j].0 == connector_id) && d[j].1
                        == applicable_profiles_spec(d, connector_id)[k];
                assert(d[j] == all[j]);
            } else {
                let j = all.len() - 1;
                assert(all[j] == all.last());
            }
        }
        assert forall|j: int|
            0 <= j < all.len() && (#[trigger] all[j]).0 == 0 || 0 <= j < all.len() && all[j].0 == connector_id
                implies applicable_profiles_spec(all, connector_id).contains(all[j].1) by {
            if j < d.len() {
                assert(d[j] == all[j]);
                assert(applicable_profiles_spec(d, connector_id).contains(d[j].1));
                let w = choose|w: int|
                    0 <= w < applicable_profiles_spec(d, connector_id).len() && applicable_profiles_spec(
                        d,
                        connector_id,
                    )[w] == d[j].1;
                assert(applicable_profiles_spec(all, connector_id)[w] == applicable_profiles_spec(d, connector_id)[w]);
            } else {
                assert(all[j] == all.last());
                let r = applicable_profiles_spec(all, connector_id);
                assert(r[r.len() - 1] == all[j].1);
            }
        }
    }
}

} // verus!
