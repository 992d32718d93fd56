//! Fair-share admission scenarios, driven with explicit timestamps so
//! every decision is reproducible.

use common_game::components::planet::{
    DummyPlanetState as GameDummyPlanetState, Planet, PlanetAI, PlanetState, PlanetType,
};
use common_game::components::resource::{
    BasicResourceType as GameBasicResourceType, Combinator,
    ComplexResourceType as GameComplexResourceType, Generator,
};
use common_game::components::rocket::Rocket;
use common_game::components::sunray::Sunray;
use common_game::protocols::orchestrator_planet::{OrchestratorToPlanet, PlanetToOrchestrator};
use common_game::protocols::planet_explorer::{
    ExplorerToPlanet as GameExplorerToPlanet, PlanetToExplorer as GamePlanetToExplorer,
};
use crossbeam_channel::unbounded;
use rustrelli::ExplorerRequestLimit;
use rustrelli::cells::CellStore;
use rustrelli::planet::{AI, ExplorerToPlanet, PlanetToExplorer};
use rustrelli::resources::BasicResourceType;

struct FairHostAI;

impl PlanetAI for FairHostAI {
    fn handle_sunray(
        &mut self,
        _state: &mut PlanetState,
        _generator: &Generator,
        _combinator: &Combinator,
        _sunray: Sunray,
    ) {
    }

    fn handle_asteroid(
        &mut self,
        _state: &mut PlanetState,
        _generator: &Generator,
        _combinator: &Combinator,
    ) -> Option<Rocket> {
        None
    }

    fn handle_internal_state_req(
        &mut self,
        state: &mut PlanetState,
        _generator: &Generator,
        _combinator: &Combinator,
    ) -> GameDummyPlanetState {
        state.to_dummy()
    }

    fn handle_explorer_msg(
        &mut self,
        _state: &mut PlanetState,
        _generator: &Generator,
        _combinator: &Combinator,
        _msg: GameExplorerToPlanet,
    ) -> Option<GamePlanetToExplorer> {
        None
    }
}

fn fair_host_planet() -> Planet {
    let (_tx_orch_to_planet, rx_orch_to_planet) = unbounded::<OrchestratorToPlanet>();
    let (tx_planet_to_orch, _rx_planet_to_orch) = unbounded::<PlanetToOrchestrator>();
    let (_tx_expl_to_planet, rx_expl_to_planet) = unbounded::<GameExplorerToPlanet>();

    Planet::new(
        1,
        PlanetType::D,
        Box::new(FairHostAI),
        vec![
            GameBasicResourceType::Carbon,
            GameBasicResourceType::Silicon,
            GameBasicResourceType::Oxygen,
            GameBasicResourceType::Hydrogen,
        ],
        Vec::<GameComplexResourceType>::new(),
        (rx_orch_to_planet, tx_planet_to_orch),
        rx_expl_to_planet,
    )
    .unwrap()
}

fn fair_setup(capacity: usize, charged: usize) -> (AI, CellStore, Planet) {
    let mut ai = AI::new(ExplorerRequestLimit::FairShare);
    let mut store = CellStore::new(capacity);
    let planet = fair_host_planet();
    for _ in 0..charged {
        ai.handle_sunray(
            &mut store,
            planet.generator(),
            planet.combinator(),
            Sunray::default(),
        );
    }
    (ai, store, planet)
}

/// Sends one generation request and reports whether it was granted.
fn fair_request(
    ai: &mut AI,
    store: &mut CellStore,
    planet: &Planet,
    explorer_id: u32,
    now_ms: u64,
) -> bool {
    match ai.handle_explorer_msg(
        store,
        planet.generator(),
        planet.combinator(),
        ExplorerToPlanet::GenerateResourceRequest {
            explorer_id,
            resource: BasicResourceType::Oxygen,
        },
        now_ms,
    ) {
        Some(PlanetToExplorer::GenerateResourceResponse { resource }) => resource.is_some(),
        _ => panic!("Expected GenerateResourceResponse"),
    }
}

#[test]
fn test_no_energy_returns_no_resource_fairshare() {
    let (mut ai, mut store, planet) = fair_setup(5, 0);

    assert!(
        !fair_request(&mut ai, &mut store, &planet, 7, 0),
        "Explorer 7 must get no resource from an uncharged planet"
    );
}

#[test]
fn test_one_delivery_one_generation() {
    let (mut ai, mut store, planet) = fair_setup(5, 1);

    assert!(
        fair_request(&mut ai, &mut store, &planet, 7, 0),
        "Explorer 7 should receive the Oxygen resource"
    );
    let state = ai.handle_internal_state_req(&mut store, planet.generator(), planet.combinator());
    assert_eq!(state.charged_cells_count, 0);
}

#[test]
fn test_fairshare_single_explorer_all_granted() {
    let (mut ai, mut store, planet) = fair_setup(10, 10);

    for k in 0..10u64 {
        assert!(
            fair_request(&mut ai, &mut store, &planet, 1, k * 10),
            "A sole explorer is never starved (request {})",
            k
        );
    }
    let state = ai.handle_internal_state_req(&mut store, planet.generator(), planet.combinator());
    assert_eq!(state.charged_cells_count, 0, "All ten cells were consumed");
}

#[test]
fn test_fairshare_interleaved_explorer_granted() {
    let (mut ai, mut store, planet) = fair_setup(6, 6);

    assert!(fair_request(&mut ai, &mut store, &planet, 1, 0));
    assert!(fair_request(&mut ai, &mut store, &planet, 1, 10));
    assert!(
        fair_request(&mut ai, &mut store, &planet, 2, 20),
        "The lightly-using explorer is granted"
    );
    // With only the two explorers tracked, the requester's own score is
    // part of the group average, so the heavy user stays within
    // tolerance as well.
    assert!(fair_request(&mut ai, &mut store, &planet, 1, 30));
    assert!(fair_request(&mut ai, &mut store, &planet, 1, 40));
    assert!(fair_request(&mut ai, &mut store, &planet, 1, 50));
    let state = ai.handle_internal_state_req(&mut store, planet.generator(), planet.combinator());
    assert_eq!(state.charged_cells_count, 0);
}

#[test]
fn test_fairshare_denies_over_consumer() {
    let (mut ai, mut store, planet) = fair_setup(12, 12);

    assert!(
        fair_request(&mut ai, &mut store, &planet, 2, 0),
        "First light explorer is granted"
    );
    assert!(
        fair_request(&mut ai, &mut store, &planet, 3, 10),
        "Second light explorer is granted"
    );

    // The heavy user's score grows by one request cost per request while
    // the others only decay: its fourth rapid request is the first whose
    // score exceeds the tolerance of the group average
    // (4000 * 3 * 3 > (4000 + 925 + 950) * 6 in milli-units at 50 ms).
    let mut outcomes: Vec<bool> = Vec::new();
    for k in 0..9u64 {
        outcomes.push(fair_request(&mut ai, &mut store, &planet, 1, 20 + k * 10));
    }
    assert_eq!(
        outcomes,
        vec![true, true, true, false, false, false, false, false, false],
        "A heavy user among three tracked explorers is rate limited"
    );
    let state = ai.handle_internal_state_req(&mut store, planet.generator(), planet.combinator());
    assert_eq!(
        state.charged_cells_count, 7,
        "Denials preserve energy: five grants out of twelve cells"
    );

    // After ten idle seconds the heavy user's score has decayed and the
    // others have left the contention window: the request is granted
    // again.
    assert!(
        fair_request(&mut ai, &mut store, &planet, 1, 11_000),
        "Decay and the activity window rehabilitate an idle explorer"
    );
}
