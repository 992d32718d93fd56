//! Planet construction and configuration tests: a type D planet built
//! with this crate's rule lists carries the expected catalog and state.

use common_game::components::planet::{
    DummyPlanetState as GameDummyPlanetState, Planet, PlanetAI, PlanetState, PlanetType,
};
use common_game::components::resource::{
    BasicResourceType as GameBasicResourceType, Combinator,
    ComplexResourceType as GameComplexResourceType, Generator,
};
use common_game::components::rocket::Rocket;
use common_game::components::sunray::Sunray;
use common_game::protocols::orchestrator_planet::{OrchestratorToPlanet, PlanetToOrchestrator};
use common_game::protocols::planet_explorer::{
    ExplorerToPlanet as GameExplorerToPlanet, PlanetToExplorer as GamePlanetToExplorer,
};
use crossbeam_channel::unbounded;
use rustrelli::resources::BasicResourceType;
use rustrelli::type_d_combination_rules;
use rustrelli::type_d_generation_rules;

struct CfgHostAI;

impl PlanetAI for CfgHostAI {
    fn handle_sunray(
        &mut self,
        _state: &mut PlanetState,
        _generator: &Generator,
        _combinator: &Combinator,
        _sunray: Sunray,
    ) {
    }

    fn handle_asteroid(
        &mut self,
        _state: &mut PlanetState,
        _generator: &Generator,
        _combinator: &Combinator,
    ) -> Option<Rocket> {
        None
    }

    fn handle_internal_state_req(
        &mut self,
        state: &mut PlanetState,
        _generator: &Generator,
        _combinator: &Combinator,
    ) -> GameDummyPlanetState {
        state.to_dummy()
    }

    fn handle_explorer_msg(
        &mut self,
        _state: &mut PlanetState,
        _generator: &Generator,
        _combinator: &Combinator,
        _msg: GameExplorerToPlanet,
    ) -> Option<GamePlanetToExplorer> {
        None
    }
}

fn cfg_game_gen_rules() -> Vec<GameBasicResourceType> {
    type_d_generation_rules()
        .into_iter()
        .map(|k| match k {
            BasicResourceType::Oxygen => GameBasicResourceType::Oxygen,
            BasicResourceType::Hydrogen => GameBasicResourceType::Hydrogen,
            BasicResourceType::Carbon => GameBasicResourceType::Carbon,
            BasicResourceType::Silicon => GameBasicResourceType::Silicon,
        })
        .collect()
}

fn cfg_planet(id: u32) -> Planet {
    let (_tx_orch_to_planet, rx_orch_to_planet) = unbounded::<OrchestratorToPlanet>();
    let (tx_planet_to_orch, _rx_planet_to_orch) = unbounded::<PlanetToOrchestrator>();
    let (_tx_expl_to_planet, rx_expl_to_planet) = unbounded::<GameExplorerToPlanet>();

    assert!(type_d_combination_rules().is_empty());
    Planet::new(
        id,
        PlanetType::D,
        Box::new(CfgHostAI),
        cfg_game_gen_rules(),
        Vec::<GameComplexResourceType>::new(),
        (rx_orch_to_planet, tx_planet_to_orch),
        rx_expl_to_planet,
    )
    .unwrap()
}

#[test]
fn test_planet_basic_configuration() {
    let planet = cfg_planet(1);

    assert_eq!(planet.id(), 1, "Planet ID should be 1");
    assert_eq!(
        planet.planet_type() as u8,
        PlanetType::D as u8,
        "Planet type should be D"
    );
}

#[test]
fn test_planet_generation_rules() {
    let planet = cfg_planet(1);
    let recipes = planet.generator().all_available_recipes();

    assert_eq!(recipes.len(), 4, "Type D supports 4 basic resources");
    assert!(
        recipes.contains(&GameBasicResourceType::Carbon),
        "Should support Carbon"
    );
    assert!(
        recipes.contains(&GameBasicResourceType::Silicon),
        "Should support Silicon"
    );
    assert!(
        recipes.contains(&GameBasicResourceType::Oxygen),
        "Should support Oxygen"
    );
    assert!(
        recipes.contains(&GameBasicResourceType::Hydrogen),
        "Should support Hydrogen"
    );
}

#[test]
fn test_planet_combination_rules() {
    let planet = cfg_planet(1);
    let recipes = planet.combinator().all_available_recipes();

    assert_eq!(
        recipes.len(),
        0,
        "Type D cannot combine resources (generator-only)"
    );
}

#[test]
fn test_planet_initial_state() {
    let planet = cfg_planet(1);

    assert_eq!(planet.state().cells_count(), 5, "Type D has 5 energy cells");
    assert!(
        !planet.state().can_have_rocket(),
        "Type D cannot build rockets"
    );
    assert!(!planet.state().has_rocket(), "No initial rocket");
}
