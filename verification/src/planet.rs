//! The planet's message dispatcher.
//!
//! [`AI`] reacts to each inbound event: sunrays charge a cell, asteroids
//! are never answered (this planet type cannot build rockets), state
//! queries take a snapshot, and explorer messages are dispatched to the
//! catalog, the synthesis adapter, the decomposition adapter and — under
//! [`ExplorerRequestLimit::FairShare`] — the admission controller.

use vstd::prelude::*;

use crate::ExplorerRequestLimit;
use crate::cells::CellStore;
use crate::cells::DummyPlanetState;
use crate::cells::count_charged;
use crate::cells::deliver;
use crate::cells::first_charged;
use crate::cells::lemma_count_charged_le_len;
use crate::cells::lemma_first_charged_bounds;
use crate::fairshare::ALLOWED_REQ_BURST;
use crate::fairshare::CONTENTION_WINDOW_MS;
use crate::fairshare::DECAY_RATE_MILLI_PER_SEC;
use crate::fairshare::MILLIS_PER_SEC;
use crate::fairshare::REQUEST_COST_MILLI;
use crate::fairshare::StatsRecord;
use crate::fairshare::add_cost;
use crate::fairshare::count_active;
use crate::fairshare::decay_all;
use crate::fairshare::decay_amount;
use crate::fairshare::decayed_record;
use crate::fairshare::decayed_score;
use crate::fairshare::elapsed_ms;
use crate::fairshare::fair_grant;
use crate::fairshare::has_id;
use crate::fairshare::ids_of;
use crate::fairshare::index_of;
use crate::fairshare::lemma_add_cost_wf;
use crate::fairshare::lemma_count_active_le_len;
use crate::fairshare::lemma_decay_all_wf;
use crate::fairshare::lemma_index_of;
use crate::fairshare::lemma_index_of_unique;
use crate::fairshare::lemma_total_score_bounds;
use crate::fairshare::lemma_touch_wf;
use crate::fairshare::lemma_unique_ids_bound;
use crate::fairshare::score_of;
use crate::fairshare::stats_after_request;
use crate::fairshare::total_score;
use crate::fairshare::touch;
use crate::fairshare::wf_stats;
use crate::resources::BasicResourceType;
use crate::resources::ComplexResourceType;
use crate::resources::basic_kind_of;
use crate::resources::decomposed_kinds;
use crate::resources::extract_generic_resources;
use crate::resources::generic_kind_of;
use crate::resources::request_kind_of;
use crate::synthesis::combinator_recipe_list;
use crate::synthesis::combinator_recipes;
use crate::synthesis::generator_recipe_list;
use crate::synthesis::generator_recipes;
use crate::synthesis::make_basic_resource;
use common_game::components::resource::BasicResource as GameBasicResource;
use common_game::components::resource::Combinator;
use common_game::components::resource::ComplexResource as GameComplexResource;
use common_game::components::resource::ComplexResourceRequest as GameComplexResourceRequest;
use common_game::components::resource::Generator;
use common_game::components::resource::GenericResource as GameGenericResource;
use common_game::components::rocket::Rocket;
use common_game::components::sunray::Sunray;

verus! {

broadcast use vstd::string::group_string_axioms;

/// The game's rocket; this planet type never builds one.
#[verifier::external_type_specification]
#[verifier::external_body]
pub struct ExRocket(Rocket);

/// The game's complex-resource value; this planet type never produces
/// one, but a refused combination answers with the same response shape.
#[verifier::external_type_specification]
#[verifier::external_body]
pub struct ExGameComplexResource(GameComplexResource);

/// An inbound explorer message, with the opaque game values it carries.
pub enum ExplorerToPlanet {
    /// Which basic resources can this planet generate?
    SupportedResourceRequest { explorer_id: u32 },
    /// Which combination recipes does this planet offer?
    SupportedCombinationRequest { explorer_id: u32 },
    /// Generate one basic resource of the given category.
    GenerateResourceRequest { explorer_id: u32, resource: BasicResourceType },
    /// Combine the two resources carried by the request.
    CombineResourceRequest { explorer_id: u32, msg: GameComplexResourceRequest },
    /// How many charged cells are available?
    AvailableEnergyCellRequest { explorer_id: u32 },
}

/// The planet's answer to an explorer message.
pub enum PlanetToExplorer {
    SupportedResourceResponse { resource_list: Vec<BasicResourceType> },
    SupportedCombinationResponse { combination_list: Vec<ComplexResourceType> },
    /// The synthesized resource, or nothing when no energy is available
    /// or the admission controller refused the request — the two causes
    /// share one shape.
    GenerateResourceResponse { resource: Option<GameBasicResource> },
    /// Always a refusal for this planet type: the reason, and the two
    /// submitted inputs handed back decomposed, in submission order.
    CombineResourceResponse {
        complex_response: Result<
            GameComplexResource,
            (String, GameGenericResource, GameGenericResource),
        >,
    },
    AvailableEnergyCellResponse { available_cells: u32 },
}

/// The text a combination refusal carries.
pub open spec fn combination_refusal_reason() -> Seq<char> {
    "This planet type can't combine resources."@
}

/// Builds the combination refusal text.
pub fn combination_refusal_text() -> (s: String)
    ensures
        s@ == combination_refusal_reason(),
{
    "This planet type can't combine resources.".to_string()
}

/// Whether a generation request reaches the synthesis adapter: a charged
/// cell must exist and, under `FairShare`, the admission controller must
/// grant the request.  The bookkeeping of `stats_after_request` runs on
/// any request that finds a charged cell, served or not.
pub open spec fn generation_served(
    stats: Seq<StatsRecord>,
    mode: ExplorerRequestLimit,
    cells: Seq<bool>,
    id: u32,
    now: u64,
) -> bool {
    first_charged(cells) < cells.len() && (mode is Unrestricted || fair_grant(
        stats_after_request(stats, id, now),
        id,
        now,
    ))
}

/// The decision policy of one type D planet: per-explorer usage
/// statistics and the configured limiting mode.
pub struct AI {
    explorer_stats: Vec<StatsRecord>,
    limit_mode: ExplorerRequestLimit,
}

impl AI {
    /// The tracked usage records, in adoption order.
    pub closed spec fn stats(&self) -> Seq<StatsRecord> {
        self.explorer_stats@
    }

    /// The configured limiting mode.
    pub closed spec fn mode(&self) -> ExplorerRequestLimit {
        self.limit_mode
    }

    /// Well-formedness: one record per explorer.
    pub open spec fn wf(&self) -> bool {
        wf_stats(self.stats())
    }

    /// A fresh policy in the given mode, tracking nobody yet.
    pub fn new(limit_mode: ExplorerRequestLimit) -> (ai: AI)
        ensures
            ai.stats() == Seq::<StatsRecord>::empty(),
            ai.mode() == limit_mode,
            ai.wf(),
    {
        let ai = AI { explorer_stats: Vec::new(), limit_mode };
        proof {
            assert(ids_of(ai.stats()) =~= Seq::<u32>::empty());
        }
        ai
    }

    /// Stamps `explorer_id`'s record with the request time, adopting the
    /// explorer with a zero score on its first request.
    fn touch_record(&mut self, explorer_id: u32, now_ms: u64)
        requires
            old(self).wf(),
        ensures
            final(self).stats() == touch(old(self).stats(), explorer_id, now_ms),
            final(self).mode() == old(self).mode(),
    {
        let ghost s = self.explorer_stats@;
        let mut k: usize = 0;
        while k < self.explorer_stats.len()
            invariant
                k <= self.explorer_stats.len(),
                self.explorer_stats@ == s,
                s == old(self).explorer_stats@,
                self.limit_mode == old(self).limit_mode,
                wf_stats(s),
                forall|j: int| 0 <= j < k ==> s[j].explorer_id != explorer_id,
            decreases self.explorer_stats.len() - k,
        {
            if self.explorer_stats[k].explorer_id == explorer_id {
                let mut rec = self.explorer_stats[k];
                rec.last_req_ms = now_ms;
                self.explorer_stats.set(k, rec);
                proof {
                    lemma_index_of_unique(s, explorer_id, k as int);
                    assert(self.explorer_stats@ =~= touch(s, explorer_id, now_ms));
                }
                return ;
            }
            k = k + 1;
        }
        self.explorer_stats.push(
            StatsRecord { explorer_id, score_milli: 0, last_req_ms: now_ms },
        );
        proof {
            assert(!has_id(s, explorer_id));
            assert(self.explorer_stats@ =~= touch(s, explorer_id, now_ms));
        }
    }

    /// The decay pass: every tracked score shrinks by the configured rate
    /// times the explorer's idle time, clamped at zero.
    fn decay_scores(&mut self, now_ms: u64)
        ensures
            final(self).stats() == decay_all(old(self).stats(), now_ms),
            final(self).mode() == old(self).mode(),
    {
        let ghost s = self.explorer_stats@;
        let mut k: usize = 0;
        while k < self.explorer_stats.len()
            invariant
                k <= self.explorer_stats.len(),
                self.explorer_stats@.len() == s.len(),
                s == old(self).explorer_stats@,
                self.limit_mode == old(self).limit_mode,
                forall|j: int|
                    0 <= j < k ==> self.explorer_stats@[j] == decayed_record(s[j], now_ms),
                forall|j: int| k <= j < s.len() ==> self.explorer_stats@[j] == s[j],
            decreases self.explorer_stats.len() - k,
        {
            let mut rec = self.explorer_stats[k];
            let ghost orig = rec;
            let e: u64 = if now_ms >= rec.last_req_ms {
                now_ms - rec.last_req_ms
            } else {
                CONTENTION_WINDOW_MS
            };
            let amt: u128 = (e as u128) * (DECAY_RATE_MILLI_PER_SEC as u128) / (
            MILLIS_PER_SEC as u128);
            proof {
                assert(amt == decay_amount(e));
            }
            if amt >= rec.score_milli as u128 {
                rec.score_milli = 0;
            } else {
                rec.score_milli = rec.score_milli - (amt as u64);
            }
            proof {
                assert(e == elapsed_ms(orig.last_req_ms, now_ms));
                assert(rec.score_milli == decayed_score(orig.score_milli, e));
                assert(rec == decayed_record(orig, now_ms));
            }
            self.explorer_stats.set(k, rec);
            k = k + 1;
        }
        proof {
            assert(self.explorer_stats@ =~= decay_all(s, now_ms));
        }
    }

    /// Charges the request cost to `explorer_id`'s record; does nothing
    /// for an explorer that is not tracked.
    fn add_req_cost(&mut self, explorer_id: u32)
        requires
            old(self).wf(),
        ensures
            final(self).stats() == add_cost(old(self).stats(), explorer_id),
            final(self).mode() == old(self).mode(),
    {
        let ghost s = self.explorer_stats@;
        let mut k: usize = 0;
        while k < self.explorer_stats.len()
            invariant
                k <= self.explorer_stats.len(),
                self.explorer_stats@ == s,
                s == old(self).explorer_stats@,
                self.limit_mode == old(self).limit_mode,
                wf_stats(s),
                forall|j: int| 0 <= j < k ==> s[j].explorer_id != explorer_id,
            decreases self.explorer_stats.len() - k,
        {
            if self.explorer_stats[k].explorer_id == explorer_id {
                let mut rec = self.explorer_stats[k];
                if rec.score_milli <= u64::MAX - REQUEST_COST_MILLI {
                    rec.score_milli = rec.score_milli + REQUEST_COST_MILLI;
                } else {
                    rec.score_milli = u64::MAX;
                }
                self.explorer_stats.set(k, rec);
                proof {
                    lemma_index_of_unique(s, explorer_id, k as int);
                    assert(self.explorer_stats@ =~= add_cost(s, explorer_id));
                }
                return ;
            }
            k = k + 1;
        }
        proof {
            assert(!has_id(s, explorer_id));
        }
    }

    /// The tracked score of `explorer_id`, if that explorer is tracked.
    fn score(&self, explorer_id: u32) -> (r: Option<u64>)
        requires
            self.wf(),
        ensures
            r == if has_id(self.stats(), explorer_id) {
                Some(score_of(self.stats(), explorer_id))
            } else {
                Option::<u64>::None
            },
    {
        let ghost s = self.explorer_stats@;
        let mut k: usize = 0;
        while k < self.explorer_stats.len()
            invariant
                k <= self.explorer_stats.len(),
                self.explorer_stats@ == s,
                wf_stats(s),
                forall|j: int| 0 <= j < k ==> s[j].explorer_id != explorer_id,
            decreases self.explorer_stats.len() - k,
        {
            if self.explorer_stats[k].explorer_id == explorer_id {
                proof {
                    lemma_index_of_unique(s, explorer_id, k as int);
                }
                return Some(self.explorer_stats[k].score_milli);
            }
            k = k + 1;
        }
        proof {
            assert(!has_id(s, explorer_id));
        }
        None
    }

    /// How many tracked explorers are active at `now_ms`.
    fn active_explorers(&self, now_ms: u64) -> (n: usize)
        ensures
            n == count_active(self.stats(), now_ms),
    {
        let ghost s = self.explorer_stats@;
        let mut n: usize = 0;
        let mut k: usize = 0;
        while k < self.explorer_stats.len()
            invariant
                k <= self.explorer_stats.len(),
                self.explorer_stats@ == s,
                n == count_active(s.subrange(0, k as int), now_ms),
                n <= k,
            decreases self.explorer_stats.len() - k,
        {
            let rec = self.explorer_stats[k];
            let e: u64 = if now_ms >= rec.last_req_ms {
                now_ms - rec.last_req_ms
            } else {
                CONTENTION_WINDOW_MS
            };
            proof {
                assert(s.subrange(0, k + 1).drop_last() =~= s.subrange(0, k as int));
                assert(s.subrange(0, k + 1).last() == s[k as int]);
            }
            if e < CONTENTION_WINDOW_MS {
                n = n + 1;
            }
            k = k + 1;
        }
        proof {
            assert(s.subrange(0, s.len() as int) =~= s);
        }
        n
    }

    /// The sum of all tracked scores.
    fn total_score_milli(&self) -> (t: u128)
        ensures
            t == total_score(self.stats()),
    {
        let ghost s = self.explorer_stats@;
        let mut t: u128 = 0;
        let mut k: usize = 0;
        while k < self.explorer_stats.len()
            invariant
                k <= self.explorer_stats.len(),
                self.explorer_stats@ == s,
                t == total_score(s.subrange(0, k as int)),
                t <= (k as int) * (u64::MAX as int),
            decreases self.explorer_stats.len() - k,
        {
            proof {
                assert(s.subrange(0, k + 1).drop_last() =~= s.subrange(0, k as int));
                assert(s.subrange(0, k + 1).last() == s[k as int]);
                assert((k as int) * (u64::MAX as int) + (u64::MAX as int) == (k + 1) * (
                u64::MAX as int)) by (nonlinear_arith);
                assert((k + 1) * (u64::MAX as int) <= u128::MAX) by (nonlinear_arith)
                    requires
                        0 <= k < usize::MAX,
                ;
            }
            t = t + (self.explorer_stats[k].score_milli as u128);
            k = k + 1;
        }
        proof {
            assert(s.subrange(0, s.len() as int) =~= s);
        }
        t
    }

    /// The admission decision over the current statistics: grant iff the
    /// requester is the sole active explorer or its score stays within
    /// the tolerance of the group average.
    fn check_fair_access(&self, explorer_id: u32, now_ms: u64) -> (r: bool)
        requires
            self.wf(),
            has_id(self.stats(), explorer_id),
        ensures
            r == fair_grant(self.stats(), explorer_id, now_ms),
    {
        let ghost s = self.stats();
        let a = self.active_explorers(now_ms);
        if a == 1 {
            return true;
        }
        let n = self.explorer_stats.len();
        let sc = match self.score(explorer_id) {
            Some(v) => v,
            None => 0,
        };
        let total = self.total_score_milli();
        proof {
            lemma_unique_ids_bound(s);
            lemma_count_active_le_len(s, now_ms);
            lemma_total_score_bounds(s);
            assert((sc as int) * (n as int) <= 0xffff_ffff_ffff_ffff * 0x1_0000_0000)
                by (nonlinear_arith)
                requires
                    sc <= 0xffff_ffff_ffff_ffff && 0 <= n <= 0x1_0000_0000,
            ;
            assert((sc as int) * (n as int) * (a as int) <= 0xffff_ffff_ffff_ffff
                * 0x1_0000_0000 * 0x1_0000_0000) by (nonlinear_arith)
                requires
                    0 <= (sc as int) * (n as int) <= 0xffff_ffff_ffff_ffff * 0x1_0000_0000
                        && 0 <= a <= 0x1_0000_0000,
            ;
        }
        let lhs: u128 = (sc as u128) * (n as u128) * (a as u128);
        match total.checked_mul((a as u128) + (ALLOWED_REQ_BURST as u128)) {
            Some(rhs) => lhs <= rhs,
            None => {
                proof {
                    assert(total_score(s) * ((a as int) + ALLOWED_REQ_BURST) > u128::MAX);
                }
                true
            },
        }
    }

    /// A sunray charges the first empty cell; a full store wastes it.
    pub fn handle_sunray(
        &mut self,
        state: &mut CellStore,
        generator: &Generator,
        combinator: &Combinator,
        sunray: Sunray,
    )
        ensures
            final(self).stats() == old(self).stats(),
            final(self).mode() == old(self).mode(),
            final(state)@ == deliver(old(state)@),
    {
        let _ = state.charge_cell(sunray);
    }

    /// An asteroid is never answered: this planet type cannot build
    /// rockets, so it will be destroyed — a deliberate policy, not a
    /// failure.
    pub fn handle_asteroid(
        &mut self,
        state: &mut CellStore,
        generator: &Generator,
        combinator: &Combinator,
    ) -> (r: Option<Rocket>)
        ensures
            r is None,
            final(self).stats() == old(self).stats(),
            final(self).mode() == old(self).mode(),
            final(state)@ == old(state)@,
    {
        None
    }

    /// A read-only snapshot of the cell store.
    pub fn handle_internal_state_req(
        &mut self,
        state: &mut CellStore,
        generator: &Generator,
        combinator: &Combinator,
    ) -> (d: DummyPlanetState)
        ensures
            final(self).stats() == old(self).stats(),
            final(self).mode() == old(self).mode(),
            final(state)@ == old(state)@,
            d.energy_cells@ == old(state)@,
            d.charged_cells_count == count_charged(old(state)@),
            !d.has_rocket,
    {
        state.to_dummy()
    }

    /// Dispatches one explorer message.
    ///
    /// - capability queries answer from the catalogs and change nothing;
    /// - a generation request needs a charged cell; under `FairShare` it
    ///   further needs the admission controller's grant, and the
    ///   bookkeeping (stamp, decay, cost) runs whether or not the grant
    ///   is given; exactly a granted request discharges the first charged
    ///   cell;
    /// - a combination request is always refused, handing back the two
    ///   inputs decomposed;
    /// - an availability query counts the charged cells.
    pub fn handle_explorer_msg(
        &mut self,
        state: &mut CellStore,
        generator: &Generator,
        combinator: &Combinator,
        msg: ExplorerToPlanet,
        now_ms: u64,
    ) -> (r: Option<PlanetToExplorer>)
        requires
            old(self).wf(),
            old(state)@.len() <= u32::MAX,
            msg matches ExplorerToPlanet::GenerateResourceRequest { explorer_id, resource }
                ==> (generation_served(
                old(self).stats(),
                old(self).mode(),
                old(state)@,
                explorer_id,
                now_ms,
            ) ==> generator_recipes(*generator).contains(resource)),
        ensures
            final(self).mode() == old(self).mode(),
            final(self).wf(),
            match msg {
                ExplorerToPlanet::SupportedResourceRequest { .. } => {
                    &&& final(self).stats() == old(self).stats()
                    &&& final(state)@ == old(state)@
                    &&& r matches Some(
                        PlanetToExplorer::SupportedResourceResponse { resource_list },
                    ) && (forall|k: BasicResourceType|
                        resource_list@.contains(k) <==> generator_recipes(*generator).contains(
                            k,
                        )) && resource_list@.no_duplicates()
                },
                ExplorerToPlanet::SupportedCombinationRequest { .. } => {
                    &&& final(self).stats() == old(self).stats()
                    &&& final(state)@ == old(state)@
                    &&& r matches Some(
                        PlanetToExplorer::SupportedCombinationResponse { combination_list },
                    ) && (forall|k: ComplexResourceType|
                        combination_list@.contains(k) <==> combinator_recipes(
                            *combinator,
                        ).contains(k)) && combination_list@.no_duplicates()
                },
                ExplorerToPlanet::GenerateResourceRequest { explorer_id, resource } => {
                    let had = first_charged(old(state)@) < old(state)@.len();
                    let s2 = if old(self).mode() is FairShare && had {
                        stats_after_request(old(self).stats(), explorer_id, now_ms)
                    } else {
                        old(self).stats()
                    };
                    let granted = generation_served(
                        old(self).stats(),
                        old(self).mode(),
                        old(state)@,
                        explorer_id,
                        now_ms,
                    );
                    &&& final(self).stats() == s2
                    &&& final(state)@ == if granted {
                        old(state)@.update(first_charged(old(state)@), false)
                    } else {
                        old(state)@
                    }
                    &&& granted ==> (r matches Some(
                        PlanetToExplorer::GenerateResourceResponse { resource: res },
                    ) && res matches Some(b) && basic_kind_of(b) == resource)
                    &&& !granted ==> (r matches Some(
                        PlanetToExplorer::GenerateResourceResponse { resource: res },
                    ) && res is None)
                },
                ExplorerToPlanet::CombineResourceRequest { explorer_id, msg: request } => {
                    &&& final(self).stats() == old(self).stats()
                    &&& final(state)@ == old(state)@
                    &&& r matches Some(
                        PlanetToExplorer::CombineResourceResponse { complex_response },
                    ) && complex_response matches Err((reason, a, b)) && reason@
                        == combination_refusal_reason() && generic_kind_of(a) == decomposed_kinds(
                        request_kind_of(request),
                    ).0 && generic_kind_of(b) == decomposed_kinds(request_kind_of(request)).1
                },
                ExplorerToPlanet::AvailableEnergyCellRequest { .. } => {
                    &&& final(self).stats() == old(self).stats()
                    &&& final(state)@ == old(state)@
                    &&& r matches Some(
                        PlanetToExplorer::AvailableEnergyCellResponse { available_cells },
                    ) && available_cells == count_charged(old(state)@)
                },
            },
    {
        match msg {
            ExplorerToPlanet::SupportedResourceRequest { .. } => {
                Some(
                    PlanetToExplorer::SupportedResourceResponse {
                        resource_list: generator_recipe_list(generator),
                    },
                )
            },
            ExplorerToPlanet::SupportedCombinationRequest { .. } => {
                Some(
                    PlanetToExplorer::SupportedCombinationResponse {
                        combination_list: combinator_recipe_list(combinator),
                    },
                )
            },
            ExplorerToPlanet::GenerateResourceRequest { explorer_id, resource } => {
                match state.find_charged_cell() {
                    Some(i) => {
                        proof {
                            lemma_first_charged_bounds(state@);
                        }
                        match self.limit_mode {
                            ExplorerRequestLimit::Unrestricted => {
                                let cell = state.cell_at_mut(i);
                                let b = make_basic_resource(resource, cell, generator);
                                return Some(
                                    PlanetToExplorer::GenerateResourceResponse {
                                        resource: Some(b),
                                    },
                                );
                            },
                            ExplorerRequestLimit::FairShare => {},
                        }
                        let ghost s0 = self.stats();
                        self.touch_record(explorer_id, now_ms);
                        proof {
                            lemma_touch_wf(s0, explorer_id, now_ms);
                        }
                        let ghost s_t = self.stats();
                        self.decay_scores(now_ms);
                        proof {
                            lemma_decay_all_wf(s_t, now_ms);
                            assert(has_id(self.stats(), explorer_id)) by {
                                lemma_index_of(s_t, explorer_id);
                                let j = index_of(s_t, explorer_id);
                                assert(self.stats()[j] == decayed_record(s_t[j], now_ms));
                            }
                        }
                        let ghost s_d = self.stats();
                        self.add_req_cost(explorer_id);
                        proof {
                            lemma_add_cost_wf(s_d, explorer_id);
                            assert(has_id(self.stats(), explorer_id)) by {
                                lemma_index_of(s_d, explorer_id);
                                let j = index_of(s_d, explorer_id);
                                lemma_index_of_unique(s_d, explorer_id, j);
                                assert(self.stats()[j].explorer_id == s_d[j].explorer_id);
                            }
                            assert(self.stats() == stats_after_request(s0, explorer_id, now_ms));
                        }
                        let granted = self.check_fair_access(explorer_id, now_ms);
                        if granted {
                            let cell = state.cell_at_mut(i);
                            let b = make_basic_resource(resource, cell, generator);
                            Some(PlanetToExplorer::GenerateResourceResponse { resource: Some(b) })
                        } else {
                            Some(PlanetToExplorer::GenerateResourceResponse { resource: None })
                        }
                    },
                    None => {
                        proof {
                            lemma_first_charged_bounds(state@);
                        }
                        Some(PlanetToExplorer::GenerateResourceResponse { resource: None })
                    },
                }
            },
            ExplorerToPlanet::CombineResourceRequest { explorer_id: _, msg: request } => {
                let inputs = extract_generic_resources(request);
                let reason = combination_refusal_text();
                Some(
                    PlanetToExplorer::CombineResourceResponse {
                        complex_response: Err((reason, inputs.0, inputs.1)),
                    },
                )
            },
            ExplorerToPlanet::AvailableEnergyCellRequest { .. } => {
                proof {
                    lemma_count_charged_le_len(state@);
                }
                let n = state.charged_count();
                Some(
                    PlanetToExplorer::AvailableEnergyCellResponse { available_cells: n as u32 },
                )
            },
        }
    }
}

impl Default for AI {
    /// An unrestricted planet, tracking nobody.
    fn default() -> (ai: AI)
        ensures
            ai.stats() == Seq::<StatsRecord>::empty(),
            ai.mode() == ExplorerRequestLimit::Unrestricted,
            ai.wf(),
    {
        AI::new(ExplorerRequestLimit::Unrestricted)
    }
}

} // verus!
