//! Combination requests are always refused by a type D planet; the
//! refusal must hand back the two submitted inputs, correctly tagged and
//! in submission order.

use common_game::components::energy_cell::EnergyCell;
use common_game::components::planet::{
    DummyPlanetState as GameDummyPlanetState, Planet, PlanetAI, PlanetState, PlanetType,
};
use common_game::components::resource::{
    BasicResourceType as GameBasicResourceType, Combinator,
    ComplexResourceRequest as GameComplexResourceRequest,
    ComplexResourceType as GameComplexResourceType, Generator, ResourceType as GameResourceType,
};
use common_game::components::rocket::Rocket;
use common_game::components::sunray::Sunray;
use common_game::protocols::orchestrator_planet::{OrchestratorToPlanet, PlanetToOrchestrator};
use common_game::protocols::planet_explorer::{
    ExplorerToPlanet as GameExplorerToPlanet, PlanetToExplorer as GamePlanetToExplorer,
};
use crossbeam_channel::unbounded;
use rustrelli::ExplorerRequestLimit;
use rustrelli::cells::CellStore;
use rustrelli::planet::{AI, ExplorerToPlanet, PlanetToExplorer};

struct DecHostAI;

impl PlanetAI for DecHostAI {
    fn handle_sunray(
        &mut self,
        _state: &mut PlanetState,
        _generator: &Generator,
        _combinator: &Combinator,
        _sunray: Sunray,
    ) {
    }

    fn handle_asteroid(
        &mut self,
        _state: &mut PlanetState,
        _generator: &Generator,
        _combinator: &Combinator,
    ) -> Option<Rocket> {
        None
    }

    fn handle_internal_state_req(
        &mut self,
        state: &mut PlanetState,
        _generator: &Generator,
        _combinator: &Combinator,
    ) -> GameDummyPlanetState {
        state.to_dummy()
    }

    fn handle_explorer_msg(
        &mut self,
        _state: &mut PlanetState,
        _generator: &Generator,
        _combinator: &Combinator,
        _msg: GameExplorerToPlanet,
    ) -> Option<GamePlanetToExplorer> {
        None
    }
}

fn dec_planet(planet_type: PlanetType, gen_rules: Vec<GameBasicResourceType>,
    comb_rules: Vec<GameComplexResourceType>) -> Planet {
    let (_tx_orch_to_planet, rx_orch_to_planet) = unbounded::<OrchestratorToPlanet>();
    let (tx_planet_to_orch, _rx_planet_to_orch) = unbounded::<PlanetToOrchestrator>();
    let (_tx_expl_to_planet, rx_expl_to_planet) = unbounded::<GameExplorerToPlanet>();

    Planet::new(
        1,
        planet_type,
        Box::new(DecHostAI),
        gen_rules,
        comb_rules,
        (rx_orch_to_planet, tx_planet_to_orch),
        rx_expl_to_planet,
    )
    .unwrap()
}

/// A type D planet: full basic catalog, no combinations.
fn dec_planet_d() -> Planet {
    dec_planet(
        PlanetType::D,
        vec![
            GameBasicResourceType::Carbon,
            GameBasicResourceType::Silicon,
            GameBasicResourceType::Oxygen,
            GameBasicResourceType::Hydrogen,
        ],
        Vec::new(),
    )
}

/// A type C planet: its combinator can build every complex resource,
/// which the tests use to mint complex input values.
fn dec_planet_c() -> Planet {
    dec_planet(
        PlanetType::C,
        vec![GameBasicResourceType::Carbon],
        vec![
            GameComplexResourceType::Diamond,
            GameComplexResourceType::Water,
            GameComplexResourceType::Life,
            GameComplexResourceType::Robot,
            GameComplexResourceType::Dolphin,
            GameComplexResourceType::AIPartner,
        ],
    )
}

fn dec_charged_cell() -> EnergyCell {
    let mut cell = EnergyCell::new();
    cell.charge(Sunray::default());
    cell
}

fn dec_refuse(request: GameComplexResourceRequest) -> (String, GameResourceType, GameResourceType) {
    let mut ai = AI::new(ExplorerRequestLimit::Unrestricted);
    let mut store = CellStore::new(5);
    let planet = dec_planet_d();
    match ai.handle_explorer_msg(
        &mut store,
        planet.generator(),
        planet.combinator(),
        ExplorerToPlanet::CombineResourceRequest {
            explorer_id: 7,
            msg: request,
        },
        0,
    ) {
        Some(PlanetToExplorer::CombineResourceResponse { complex_response }) => {
            match complex_response {
                Err((reason, first, second)) => (reason, first.get_type(), second.get_type()),
                Ok(_) => panic!("Type D must refuse every combination"),
            }
        }
        _ => panic!("Expected CombineResourceResponse"),
    }
}

#[test]
fn test_combination_refused_decomposes_water() {
    let maker = dec_planet_d();
    let hydrogen = maker
        .generator()
        .make_hydrogen(&mut dec_charged_cell())
        .unwrap();
    let oxygen = maker
        .generator()
        .make_oxygen(&mut dec_charged_cell())
        .unwrap();

    let (reason, first, second) = dec_refuse(GameComplexResourceRequest::Water(hydrogen, oxygen));

    assert_eq!(reason, "This planet type can't combine resources.");
    assert_eq!(
        first,
        GameResourceType::Basic(GameBasicResourceType::Hydrogen)
    );
    assert_eq!(second, GameResourceType::Basic(GameBasicResourceType::Oxygen));
}

#[test]
fn test_combination_refused_decomposes_life() {
    let maker = dec_planet_d();
    let brewer = dec_planet_c();
    let hydrogen = maker
        .generator()
        .make_hydrogen(&mut dec_charged_cell())
        .unwrap();
    let oxygen = maker
        .generator()
        .make_oxygen(&mut dec_charged_cell())
        .unwrap();
    let water = brewer
        .combinator()
        .make_water(hydrogen, oxygen, &mut dec_charged_cell())
        .unwrap();
    let carbon = maker
        .generator()
        .make_carbon(&mut dec_charged_cell())
        .unwrap();

    let (reason, first, second) = dec_refuse(GameComplexResourceRequest::Life(water, carbon));

    assert_eq!(reason, "This planet type can't combine resources.");
    assert_eq!(
        first,
        GameResourceType::Complex(GameComplexResourceType::Water)
    );
    assert_eq!(second, GameResourceType::Basic(GameBasicResourceType::Carbon));
}

#[test]
fn test_combination_refused_decomposes_diamond() {
    let maker = dec_planet_d();
    let carbon_one = maker
        .generator()
        .make_carbon(&mut dec_charged_cell())
        .unwrap();
    let carbon_two = maker
        .generator()
        .make_carbon(&mut dec_charged_cell())
        .unwrap();

    let (reason, first, second) =
        dec_refuse(GameComplexResourceRequest::Diamond(carbon_one, carbon_two));

    assert_eq!(reason, "This planet type can't combine resources.");
    assert_eq!(first, GameResourceType::Basic(GameBasicResourceType::Carbon));
    assert_eq!(second, GameResourceType::Basic(GameBasicResourceType::Carbon));
}

#[test]
fn test_combination_catalog_reported() {
    let mut ai = AI::new(ExplorerRequestLimit::Unrestricted);
    let mut store = CellStore::new(5);
    let brewer = dec_planet_c();

    match ai.handle_explorer_msg(
        &mut store,
        brewer.generator(),
        brewer.combinator(),
        ExplorerToPlanet::SupportedCombinationRequest { explorer_id: 7 },
        0,
    ) {
        Some(PlanetToExplorer::SupportedCombinationResponse { combination_list }) => {
            assert_eq!(combination_list.len(), 6);
            assert!(combination_list.contains(&rustrelli::resources::ComplexResourceType::Water));
        }
        _ => panic!("Expected SupportedCombinationResponse"),
    }
}

#[test]
fn test_combination_refusal_keeps_store_untouched() {
    let maker = dec_planet_d();
    let hydrogen = maker
        .generator()
        .make_hydrogen(&mut dec_charged_cell())
        .unwrap();
    let oxygen = maker
        .generator()
        .make_oxygen(&mut dec_charged_cell())
        .unwrap();

    let mut ai = AI::new(ExplorerRequestLimit::Unrestricted);
    let mut store = CellStore::new(5);
    let planet = dec_planet_d();
    ai.handle_sunray(
        &mut store,
        planet.generator(),
        planet.combinator(),
        Sunray::default(),
    );
    let _ = ai.handle_explorer_msg(
        &mut store,
        planet.generator(),
        planet.combinator(),
        ExplorerToPlanet::CombineResourceRequest {
            explorer_id: 7,
            msg: GameComplexResourceRequest::Water(hydrogen, oxygen),
        },
        0,
    );

    let state = ai.handle_internal_state_req(&mut store, planet.generator(), planet.combinator());
    assert_eq!(
        state.charged_cells_count, 1,
        "A refused combination consumes no energy"
    );
}
