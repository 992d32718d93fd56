//! Basic-resource synthesis through the game's recipe catalog.
//!
//! A planet owns a `Generator` (basic-resource recipes) and a `Combinator`
//! (combination recipes), both built by the game framework at planet
//! construction.  Their recipe sets are named by the uninterpreted
//! functions below; the trusted items state what each catalog call does
//! in terms of those sets and of the cell charge.

use vstd::prelude::*;

use crate::cells::charged_of;
use crate::resources::BasicResourceType;
use crate::resources::ComplexResourceType;
use crate::resources::basic_kind_of;
use common_game::components::energy_cell::EnergyCell;
use common_game::components::resource::BasicResource as GameBasicResource;
use common_game::components::resource::BasicResourceType as GameBasicResourceType;
use common_game::components::resource::Carbon as GameCarbon;
use common_game::components::resource::Combinator;
use common_game::components::resource::ComplexResourceType as GameComplexResourceType;
use common_game::components::resource::Generator;
use common_game::components::resource::Hydrogen as GameHydrogen;
use common_game::components::resource::Oxygen as GameOxygen;
use common_game::components::resource::Silicon as GameSilicon;

verus! {

/// The game's basic-resource catalog.
#[verifier::external_type_specification]
#[verifier::external_body]
pub struct ExGenerator(Generator);

/// The game's combination catalog.
#[verifier::external_type_specification]
#[verifier::external_body]
pub struct ExCombinator(Combinator);

/// The game's oxygen value.
#[verifier::external_type_specification]
#[verifier::external_body]
pub struct ExOxygen(GameOxygen);

/// The game's hydrogen value.
#[verifier::external_type_specification]
#[verifier::external_body]
pub struct ExHydrogen(GameHydrogen);

/// The game's carbon value.
#[verifier::external_type_specification]
#[verifier::external_body]
pub struct ExCarbon(GameCarbon);

/// The game's silicon value.
#[verifier::external_type_specification]
#[verifier::external_body]
pub struct ExSilicon(GameSilicon);

/// The recipe set a `Generator` was built with.
pub uninterp spec fn generator_recipes(g: Generator) -> Set<BasicResourceType>;

/// The recipe set a `Combinator` was built with.
pub uninterp spec fn combinator_recipes(c: Combinator) -> Set<ComplexResourceType>;

/// Relies on `Generator::make_oxygen`: succeeds exactly when the catalog
/// holds the recipe and the cell is charged, discharging the cell; on
/// failure the cell keeps its charge state.
pub assume_specification[ Generator::make_oxygen ](g: &Generator, energy_cell: &mut EnergyCell) -> (r: Result<
    GameOxygen,
    String,
>)
    ensures
        r is Ok <==> generator_recipes(*g).contains(BasicResourceType::Oxygen) && charged_of(
            *old(energy_cell),
        ),
        r is Ok ==> !charged_of(*final(energy_cell)),
        r is Err ==> charged_of(*final(energy_cell)) == charged_of(*old(energy_cell)),
;

/// Relies on `Generator::make_hydrogen`; same contract shape as
/// `make_oxygen`.
pub assume_specification[ Generator::make_hydrogen ](g: &Generator, energy_cell: &mut EnergyCell) -> (r: Result<
    GameHydrogen,
    String,
>)
    ensures
        r is Ok <==> generator_recipes(*g).contains(BasicResourceType::Hydrogen) && charged_of(
            *old(energy_cell),
        ),
        r is Ok ==> !charged_of(*final(energy_cell)),
        r is Err ==> charged_of(*final(energy_cell)) == charged_of(*old(energy_cell)),
;

/// Relies on `Generator::make_carbon`; same contract shape as
/// `make_oxygen`.
pub assume_specification[ Generator::make_carbon ](g: &Generator, energy_cell: &mut EnergyCell) -> (r: Result<
    GameCarbon,
    String,
>)
    ensures
        r is Ok <==> generator_recipes(*g).contains(BasicResourceType::Carbon) && charged_of(
            *old(energy_cell),
        ),
        r is Ok ==> !charged_of(*final(energy_cell)),
        r is Err ==> charged_of(*final(energy_cell)) == charged_of(*old(energy_cell)),
;

/// Relies on `Generator::make_silicon`; same contract shape as
/// `make_oxygen`.
pub assume_specification[ Generator::make_silicon ](g: &Generator, energy_cell: &mut EnergyCell) -> (r: Result<
    GameSilicon,
    String,
>)
    ensures
        r is Ok <==> generator_recipes(*g).contains(BasicResourceType::Silicon) && charged_of(
            *old(energy_cell),
        ),
        r is Ok ==> !charged_of(*final(energy_cell)),
        r is Err ==> charged_of(*final(energy_cell)) == charged_of(*old(energy_cell)),
;

/// Relies on `GameOxygen::to_basic`: wraps the value as its own variant of
/// `BasicResource`.
pub assume_specification[ GameOxygen::to_basic ](x: GameOxygen) -> (r: GameBasicResource)
    ensures
        basic_kind_of(r) == BasicResourceType::Oxygen,
;

/// Relies on `GameHydrogen::to_basic`: wraps the value as its own variant of
/// `BasicResource`.
pub assume_specification[ GameHydrogen::to_basic ](x: GameHydrogen) -> (r: GameBasicResource)
    ensures
        basic_kind_of(r) == BasicResourceType::Hydrogen,
;

/// Relies on `GameCarbon::to_basic`: wraps the value as its own variant of
/// `BasicResource`.
pub assume_specification[ GameCarbon::to_basic ](x: GameCarbon) -> (r: GameBasicResource)
    ensures
        basic_kind_of(r) == BasicResourceType::Carbon,
;

/// Relies on `GameSilicon::to_basic`: wraps the value as its own variant of
/// `BasicResource`.
pub assume_specification[ GameSilicon::to_basic ](x: GameSilicon) -> (r: GameBasicResource)
    ensures
        basic_kind_of(r) == BasicResourceType::Silicon,
;

/// Relies on `Generator::all_available_recipes`: hands out a copy of the
/// recipe set.  The copy is iterated in an order the hash set picks, so
/// only the membership and distinctness of the listed categories are
/// stated.
#[verifier::external_body]
pub fn generator_recipe_list(g: &Generator) -> (r: Vec<BasicResourceType>)
    ensures
        forall|k: BasicResourceType| r@.contains(k) <==> generator_recipes(*g).contains(k),
        r@.no_duplicates(),
{
    g.all_available_recipes().into_iter().map(|b| match b {
        GameBasicResourceType::Oxygen => BasicResourceType::Oxygen,
        GameBasicResourceType::Hydrogen => BasicResourceType::Hydrogen,
        GameBasicResourceType::Carbon => BasicResourceType::Carbon,
        GameBasicResourceType::Silicon => BasicResourceType::Silicon,
    }).collect()
}

/// Relies on `Combinator::all_available_recipes`: hands out a copy of the
/// recipe set, in an order the hash set picks.
#[verifier::external_body]
pub fn combinator_recipe_list(c: &Combinator) -> (r: Vec<ComplexResourceType>)
    ensures
        forall|k: ComplexResourceType| r@.contains(k) <==> combinator_recipes(*c).contains(k),
        r@.no_duplicates(),
{
    c.all_available_recipes().into_iter().map(|x| match x {
        GameComplexResourceType::Diamond => ComplexResourceType::Diamond,
        GameComplexResourceType::Water => ComplexResourceType::Water,
        GameComplexResourceType::Life => ComplexResourceType::Life,
        GameComplexResourceType::Robot => ComplexResourceType::Robot,
        GameComplexResourceType::Dolphin => ComplexResourceType::Dolphin,
        GameComplexResourceType::AIPartner => ComplexResourceType::AIPartner,
    }).collect()
}

/// Synthesizes the requested basic resource, discharging the given cell.
///
/// The caller must hand in a charged cell and a category the generator
/// holds a recipe for; anything else is a programming error in the
/// dispatcher, so it is ruled out rather than handled.
pub fn make_basic_resource(
    resource: BasicResourceType,
    cell: &mut EnergyCell,
    generator: &Generator,
) -> (r: GameBasicResource)
    requires
        charged_of(*old(cell)),
        generator_recipes(*generator).contains(resource),
    ensures
        !charged_of(*final(cell)),
        basic_kind_of(r) == resource,
{
    match resource {
        BasicResourceType::Oxygen => {
            let made = generator.make_oxygen(cell);
            made.unwrap().to_basic()
        },
        BasicResourceType::Hydrogen => {
            let made = generator.make_hydrogen(cell);
            made.unwrap().to_basic()
        },
        BasicResourceType::Carbon => {
            let made = generator.make_carbon(cell);
            made.unwrap().to_basic()
        },
        BasicResourceType::Silicon => {
            let made = generator.make_silicon(cell);
            made.unwrap().to_basic()
        },
    }
}

} // verus!
