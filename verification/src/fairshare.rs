//! The fair-share admission controller's mathematical model and laws.
//!
//! Scores and times are integers: a score is kept in thousandths of a
//! request cost ("milli-units"), a timestamp in milliseconds.  With the
//! configured rates every quantity of the controller is then exact, except
//! the decay, which rounds down to the next milli-unit.
//!
//! The grant condition compares the requester's score against
//! `avgScore * (1 + burst / activeCount)`.  To stay exact it is stated
//! cross-multiplied over integers:
//! `score * n * a <= total * (a + burst)`, where `n` counts all tracked
//! explorers and `a` the active ones.

use vstd::prelude::*;
use vstd::arithmetic::div_mod::lemma_div_is_ordered;
use vstd::arithmetic::div_mod::lemma_div_plus_one;
use vstd::set_lib::lemma_int_range;
use vstd::set_lib::lemma_len_subset;
use vstd::set_lib::set_int_range;

verus! {

/// How long after its last request an explorer still counts as active,
/// in milliseconds.
pub const CONTENTION_WINDOW_MS: u64 = 3000;

/// How fast a score decays, in milli-units per second of idleness.
pub const DECAY_RATE_MILLI_PER_SEC: u64 = 500;

/// What one generation request adds to the requester's score, granted or
/// not, in milli-units.
pub const REQUEST_COST_MILLI: u64 = 1000;

/// How many requests beyond an even share a lone burst may use; spread
/// over the active explorers in the tolerance formula.
pub const ALLOWED_REQ_BURST: u64 = 3;

pub const MILLIS_PER_SEC: u64 = 1000;

/// Usage statistics of one explorer.
#[derive(Clone, Copy, PartialEq, Eq, Structural, Debug)]
pub struct StatsRecord {
    /// The explorer this record tracks.
    pub explorer_id: u32,
    /// Accumulated, decaying usage cost, in milli-units.
    pub score_milli: u64,
    /// Timestamp of the explorer's latest generation request, in
    /// milliseconds.
    pub last_req_ms: u64,
}

/// Milliseconds since `last`.  An interval that cannot be measured
/// (a clock that went backwards) counts as one full contention window,
/// which keeps decay conservative and the explorer inactive.
pub open spec fn elapsed_ms(last: u64, now: u64) -> u64 {
    if now >= last {
        (now - last) as u64
    } else {
        CONTENTION_WINDOW_MS
    }
}

/// How many milli-units an idle time of `e` milliseconds burns off.
pub open spec fn decay_amount(e: u64) -> int {
    (e * DECAY_RATE_MILLI_PER_SEC) / (MILLIS_PER_SEC as int)
}

/// A score after `e` milliseconds of decay, clamped at zero.
pub open spec fn decayed_score(score: u64, e: u64) -> u64 {
    if decay_amount(e) >= score {
        0u64
    } else {
        (score - decay_amount(e)) as u64
    }
}

/// A record after the decay pass at time `now`: only the score changes;
/// the request timestamp stays.
pub open spec fn decayed_record(r: StatsRecord, now: u64) -> StatsRecord {
    StatsRecord { score_milli: decayed_score(r.score_milli, elapsed_ms(r.last_req_ms, now)), ..r }
}

/// The decay pass over every tracked explorer.
pub open spec fn decay_all(s: Seq<StatsRecord>, now: u64) -> Seq<StatsRecord> {
    s.map_values(|r: StatsRecord| decayed_record(r, now))
}

/// The tracked explorer ids, in record order.
pub open spec fn ids_of(s: Seq<StatsRecord>) -> Seq<u32> {
    s.map_values(|r: StatsRecord| r.explorer_id)
}

/// Well-formed statistics: one record per explorer.
pub open spec fn wf_stats(s: Seq<StatsRecord>) -> bool {
    ids_of(s).no_duplicates()
}

/// Whether some record tracks `id`.
pub open spec fn has_id(s: Seq<StatsRecord>, id: u32) -> bool {
    exists|i: int| 0 <= i < s.len() && s[i].explorer_id == id
}

/// The index of the record tracking `id` (meaningful when `has_id`).
pub open spec fn index_of(s: Seq<StatsRecord>, id: u32) -> int {
    choose|i: int| 0 <= i < s.len() && s[i].explorer_id == id
}

/// The tracked score of `id` (meaningful when `has_id`).
pub open spec fn score_of(s: Seq<StatsRecord>, id: u32) -> u64 {
    s[index_of(s, id)].score_milli
}

/// The statistics after `id`'s request is stamped: an existing record
/// gets `last_req_ms = now`; an unknown explorer is adopted with a zero
/// score.
pub open spec fn touch(s: Seq<StatsRecord>, id: u32, now: u64) -> Seq<StatsRecord> {
    if has_id(s, id) {
        s.update(index_of(s, id), StatsRecord { last_req_ms: now, ..s[index_of(s, id)] })
    } else {
        s.push(StatsRecord { explorer_id: id, score_milli: 0, last_req_ms: now })
    }
}

/// A score after one request cost, saturating at the type's limit.
pub open spec fn bump_score(sc: u64) -> u64 {
    if sc + REQUEST_COST_MILLI <= u64::MAX {
        (sc + REQUEST_COST_MILLI) as u64
    } else {
        u64::MAX
    }
}

/// The statistics after the request cost is charged to `id`'s record;
/// an untracked `id` changes nothing.
pub open spec fn add_cost(s: Seq<StatsRecord>, id: u32) -> Seq<StatsRecord> {
    if has_id(s, id) {
        s.update(
            index_of(s, id),
            StatsRecord { score_milli: bump_score(s[index_of(s, id)].score_milli), ..s[index_of(s, id)] },
        )
    } else {
        s
    }
}

/// Whether a record counts as active at time `now`.
pub open spec fn is_active(r: StatsRecord, now: u64) -> bool {
    elapsed_ms(r.last_req_ms, now) < CONTENTION_WINDOW_MS
}

/// How many tracked explorers are active at time `now`.
pub open spec fn count_active(s: Seq<StatsRecord>, now: u64) -> nat
    decreases s.len(),
{
    if s.len() == 0 {
        0
    } else {
        count_active(s.drop_last(), now) + (if is_active(s.last(), now) {
            1nat
        } else {
            0nat
        })
    }
}

/// The sum of all tracked scores, in milli-units.
pub open spec fn total_score(s: Seq<StatsRecord>) -> int
    decreases s.len(),
{
    if s.len() == 0 {
        0
    } else {
        total_score(s.drop_last()) + s.last().score_milli
    }
}

/// The statistics after the full per-request bookkeeping: stamp the
/// requester, decay everyone, then charge the request cost.
pub open spec fn stats_after_request(s: Seq<StatsRecord>, id: u32, now: u64) -> Seq<StatsRecord> {
    add_cost(decay_all(touch(s, id, now), now), id)
}

/// The grant condition over the post-bookkeeping statistics `s`: a sole
/// active explorer is always served; otherwise the requester's score must
/// stay within `avgScore * (1 + burst / activeCount)`, stated
/// cross-multiplied so that it is exact.
pub open spec fn fair_grant(s: Seq<StatsRecord>, id: u32, now: u64) -> bool {
    let a = count_active(s, now) as int;
    let n = s.len() as int;
    a == 1 || score_of(s, id) * n * a <= total_score(s) * (a + ALLOWED_REQ_BURST)
}

// ---------------------------------------------------------------------
// Coherence of the record lookup.
// ---------------------------------------------------------------------

/// `index_of` finds a record with the looked-up id.
pub proof fn lemma_index_of(s: Seq<StatsRecord>, id: u32)
    requires
        has_id(s, id),
    ensures
        0 <= index_of(s, id) < s.len(),
        s[index_of(s, id)].explorer_id == id,
{
}

/// In well-formed statistics the looked-up record is the only one with
/// its id.
pub proof fn lemma_index_of_unique(s: Seq<StatsRecord>, id: u32, j: int)
    requires
        wf_stats(s),
        0 <= j < s.len(),
        s[j].explorer_id == id,
    ensures
        has_id(s, id),
        index_of(s, id) == j,
{
    assert(has_id(s, id));
    lemma_index_of(s, id);
    let i = index_of(s, id);
    assert(ids_of(s)[i] == id);
    assert(ids_of(s)[j] == id);
    if i != j {
        assert(ids_of(s)[i] != ids_of(s)[j]);
    }
}

// ---------------------------------------------------------------------
// The bookkeeping steps keep the statistics well-formed and keep every
// id they started with.
// ---------------------------------------------------------------------

pub proof fn lemma_touch_wf(s: Seq<StatsRecord>, id: u32, now: u64)
    requires
        wf_stats(s),
    ensures
        wf_stats(touch(s, id, now)),
        ids_of(touch(s, id, now)) == if has_id(s, id) {
            ids_of(s)
        } else {
            ids_of(s).push(id)
        },
        has_id(touch(s, id, now), id),
        touch(s, id, now).len() == s.len() + (if has_id(s, id) {
            0int
        } else {
            1int
        }),
{
    let t = touch(s, id, now);
    if has_id(s, id) {
        lemma_index_of(s, id);
        assert(ids_of(t) =~= ids_of(s));
        lemma_index_of_unique(t, id, index_of(s, id));
    } else {
        assert(ids_of(t) =~= ids_of(s).push(id));
        assert forall|i: int, j: int|
            0 <= i < ids_of(t).len() && 0 <= j < ids_of(t).len() && i != j implies ids_of(t)[i]
            != ids_of(t)[j] by {
            if i < ids_of(s).len() && j < ids_of(s).len() {
            } else if i < ids_of(s).len() {
                assert(s[i].explorer_id != id);
            } else if j < ids_of(s).len() {
                assert(s[j].explorer_id != id);
            }
        }
        assert(t[s.len() as int].explorer_id == id);
    }
}

pub proof fn lemma_decay_all_wf(s: Seq<StatsRecord>, now: u64)
    ensures
        decay_all(s, now).len() == s.len(),
        ids_of(decay_all(s, now)) == ids_of(s),
        wf_stats(s) ==> wf_stats(decay_all(s, now)),
{
    assert(ids_of(decay_all(s, now)) =~= ids_of(s));
}

pub proof fn lemma_add_cost_wf(s: Seq<StatsRecord>, id: u32)
    ensures
        add_cost(s, id).len() == s.len(),
        ids_of(add_cost(s, id)) == ids_of(s),
        wf_stats(s) ==> wf_stats(add_cost(s, id)),
{
    if has_id(s, id) {
        lemma_index_of(s, id);
        assert(ids_of(add_cost(s, id)) =~= ids_of(s));
    } else {
        assert(ids_of(add_cost(s, id)) =~= ids_of(s));
    }
}

// ---------------------------------------------------------------------
// Counting bounds.
// ---------------------------------------------------------------------

pub proof fn lemma_count_active_le_len(s: Seq<StatsRecord>, now: u64)
    ensures
        count_active(s, now) <= s.len(),
    decreases s.len(),
{
    if s.len() > 0 {
        lemma_count_active_le_len(s.drop_last(), now);
    }
}

/// If some record is active, at least one active explorer is counted.
pub proof fn lemma_count_active_pos(s: Seq<StatsRecord>, now: u64, i: int)
    requires
        0 <= i < s.len(),
        is_active(s[i], now),
    ensures
        count_active(s, now) >= 1,
    decreases s.len(),
{
    if i < s.len() - 1 {
        lemma_count_active_pos(s.drop_last(), now, i);
    }
}

pub proof fn lemma_total_score_bounds(s: Seq<StatsRecord>)
    ensures
        0 <= total_score(s),
        total_score(s) <= s.len() * (u64::MAX as int),
    decreases s.len(),
{
    if s.len() > 0 {
        lemma_total_score_bounds(s.drop_last());
        assert((s.len() - 1) * (u64::MAX as int) + (u64::MAX as int) == s.len() * (
        u64::MAX as int)) by (nonlinear_arith);
    }
}

/// The tracked score of any explorer never exceeds the total.
pub proof fn lemma_score_le_total(s: Seq<StatsRecord>, i: int)
    requires
        0 <= i < s.len(),
    ensures
        s[i].score_milli <= total_score(s),
    decreases s.len(),
{
    lemma_total_score_bounds(s.drop_last());
    if i < s.len() - 1 {
        lemma_score_le_total(s.drop_last(), i);
    }
}

/// Explorer ids are 32-bit, so well-formed statistics can track at most
/// `2^32` explorers.
pub proof fn lemma_unique_ids_bound(s: Seq<StatsRecord>)
    requires
        wf_stats(s),
    ensures
        s.len() <= 0x1_0000_0000,
{
    let ids = ids_of(s);
    let f = |x: u32| x as int;
    let as_ints = ids.map_values(f);
    assert(vstd::relations::injective(f)) by {
        assert forall|x: u32, y: u32| #[trigger] f(x) == #[trigger] f(y) implies x == y by {}
    }
    ids.lemma_no_duplicates_injective(f);
    as_ints.unique_seq_to_set();
    let range = set_int_range(0, 0x1_0000_0000);
    assert(as_ints.to_set().subset_of(range)) by {
        assert forall|x: int| as_ints.to_set().contains(x) implies range.contains(x) by {
            let k = choose|k: int| 0 <= k < as_ints.len() && as_ints[k] == x;
            assert(0 <= as_ints[k] < 0x1_0000_0000);
        }
    }
    lemma_int_range(0, 0x1_0000_0000);
    lemma_len_subset(as_ints.to_set(), range);
}

// ---------------------------------------------------------------------
// Laws of the controller.
// ---------------------------------------------------------------------

/// Law (decay monotonicity): elapsed time alone never increases a score,
/// and a longer idle time never leaves a larger score.
pub proof fn lemma_decay_monotonic(score: u64, e1: u64, e2: u64)
    requires
        e1 <= e2,
    ensures
        decayed_score(score, e2) <= decayed_score(score, e1) <= score,
{
    lemma_div_is_ordered(
        e1 * DECAY_RATE_MILLI_PER_SEC,
        e2 * DECAY_RATE_MILLI_PER_SEC,
        MILLIS_PER_SEC as int,
    );
    assert(decay_amount(e1) >= 0) by {
        vstd::arithmetic::div_mod::lemma_div_pos_is_pos(
            e1 * DECAY_RATE_MILLI_PER_SEC,
            MILLIS_PER_SEC as int,
        );
    }
}

/// Law (strict decay): while a score is still positive, each further two
/// milliseconds of idleness strictly shrink it.  (Two milliseconds are
/// the grain of the fixed-point decay: half a milli-unit per
/// millisecond.)
pub proof fn lemma_decay_strict(score: u64, e1: u64, e2: u64)
    requires
        e1 + 2 <= e2,
        decayed_score(score, e1) > 0,
    ensures
        decayed_score(score, e2) < decayed_score(score, e1),
{
    lemma_decay_monotonic(score, e1, (e1 + 2) as u64);
    lemma_decay_monotonic(score, (e1 + 2) as u64, e2);
    assert((e1 + 2) * DECAY_RATE_MILLI_PER_SEC == e1 * DECAY_RATE_MILLI_PER_SEC + MILLIS_PER_SEC)
        by (nonlinear_arith);
    lemma_div_plus_one(e1 * DECAY_RATE_MILLI_PER_SEC, MILLIS_PER_SEC as int);
    assert(decay_amount((e1 + 2) as u64) == decay_amount(e1) + 1);
}

/// The requester itself always counts as active right after its request
/// was stamped, so the active count at decision time is at least one and
/// the tolerance formula never divides by zero.
pub proof fn lemma_requester_active(s: Seq<StatsRecord>, id: u32, now: u64)
    requires
        wf_stats(s),
    ensures
        count_active(stats_after_request(s, id, now), now) >= 1,
        has_id(stats_after_request(s, id, now), id),
        stats_after_request(s, id, now).len() >= 1,
{
    let t = touch(s, id, now);
    lemma_touch_wf(s, id, now);
    lemma_index_of(t, id);
    let d = decay_all(t, now);
    lemma_decay_all_wf(t, now);
    let i = index_of(t, id);
    if has_id(s, id) {
        lemma_index_of(s, id);
        lemma_index_of_unique(t, id, index_of(s, id));
    } else {
        lemma_index_of_unique(t, id, s.len() as int);
    }
    assert(t[i].last_req_ms == now);
    assert(d[i] == decayed_record(t[i], now));
    assert(d[i].explorer_id == id && d[i].last_req_ms == now);
    let f = add_cost(d, id);
    lemma_add_cost_wf(d, id);
    lemma_index_of_unique(d, id, i);
    assert(f[i].explorer_id == id && f[i].last_req_ms == now);
    assert(elapsed_ms(now, now) == 0);
    assert(is_active(f[i], now));
    lemma_count_active_pos(f, now, i);
    lemma_index_of_unique(f, id, i);
}

/// Law (cost before outcome): a request stamps the requester first, so
/// its own score sees no decay that round, and the full request cost
/// lands on it — whether or not the request ends up granted, since the
/// grant decision only reads the statistics this function describes.
pub proof fn lemma_request_cost_charged(s: Seq<StatsRecord>, id: u32, now: u64)
    requires
        wf_stats(s),
    ensures
        score_of(stats_after_request(s, id, now), id) == bump_score(
            if has_id(s, id) {
                score_of(s, id)
            } else {
                0u64
            },
        ),
{
    let t = touch(s, id, now);
    lemma_touch_wf(s, id, now);
    lemma_index_of(t, id);
    let i = index_of(t, id);
    if has_id(s, id) {
        lemma_index_of(s, id);
        lemma_index_of_unique(t, id, index_of(s, id));
    } else {
        lemma_index_of_unique(t, id, s.len() as int);
    }
    let d = decay_all(t, now);
    lemma_decay_all_wf(t, now);
    assert(d[i] == decayed_record(t[i], now));
    assert(elapsed_ms(now, now) == 0);
    assert(decay_amount(0) == 0);
    assert(d[i].score_milli == t[i].score_milli);
    lemma_index_of_unique(d, id, i);
    let f = add_cost(d, id);
    lemma_add_cost_wf(d, id);
    assert(f[i].score_milli == bump_score(d[i].score_milli));
    lemma_index_of_unique(f, id, i);
}

/// Law (sole-user exemption): when the requester is the only active
/// explorer, the request is granted regardless of any score.
pub proof fn lemma_solo_user_exemption(s: Seq<StatsRecord>, id: u32, now: u64)
    requires
        count_active(stats_after_request(s, id, now), now) == 1,
    ensures
        fair_grant(stats_after_request(s, id, now), id, now),
{
}

/// Law (tolerance threshold, granting half): under any contention, a
/// requester whose charged score stays within the tolerance of the group
/// average is served.
pub proof fn lemma_within_tolerance_granted(s: Seq<StatsRecord>, id: u32, now: u64)
    requires
        score_of(stats_after_request(s, id, now), id) * stats_after_request(s, id, now).len()
            * count_active(stats_after_request(s, id, now), now) <= total_score(
            stats_after_request(s, id, now),
        ) * (count_active(stats_after_request(s, id, now), now) + ALLOWED_REQ_BURST),
    ensures
        fair_grant(stats_after_request(s, id, now), id, now),
{
}

/// With exactly two tracked explorers, both active, no request is ever
/// refused: the requester's score is part of the total, so
/// `score * 2 * 2 <= (score + other) * 5` always holds.  A refusal under
/// contention therefore needs at least a third tracked explorer, whose
/// low or stale score pulls the group average down.
pub proof fn lemma_two_explorer_no_denial(s: Seq<StatsRecord>, id: u32, now: u64)
    requires
        wf_stats(s),
        has_id(s, id),
        s.len() == 2,
        count_active(s, now) == 2,
    ensures
        fair_grant(s, id, now),
{
    lemma_index_of(s, id);
    lemma_score_le_total(s, index_of(s, id));
    lemma_total_score_bounds(s);
    let sc = score_of(s, id) as int;
    let t = total_score(s);
    assert(sc * 2 * 2 <= t * (2 + ALLOWED_REQ_BURST)) by (nonlinear_arith)
        requires
            0 <= sc <= t,
    ;
}

/// Law (tolerance threshold, denying half): with at least two active
/// explorers, a requester whose charged score exceeds the tolerance of
/// the group average is refused.
pub proof fn lemma_over_tolerance_denied(s: Seq<StatsRecord>, id: u32, now: u64)
    requires
        count_active(stats_after_request(s, id, now), now) >= 2,
        score_of(stats_after_request(s, id, now), id) * stats_after_request(s, id, now).len()
            * count_active(stats_after_request(s, id, now), now) > total_score(
            stats_after_request(s, id, now),
        ) * (count_active(stats_after_request(s, id, now), now) + ALLOWED_REQ_BURST),
    ensures
        !fair_grant(stats_after_request(s, id, now), id, now),
{
}

} // verus!
