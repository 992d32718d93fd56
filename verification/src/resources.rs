//! Resource categories, and the decomposition of refused combination
//! requests.
//!
//! The game's resource *values* (`common_game`'s `Oxygen`, `BasicResource`,
//! `ComplexResourceRequest`, ...) are opaque tokens minted by the game
//! framework; this crate reasons about them through their *categories*,
//! which are plain enums of this module.  The uninterpreted functions
//! below name the category of each opaque value, and the trusted items
//! state how the game's own tagging functions act on those categories.

use vstd::prelude::*;

use common_game::components::resource::BasicResource as GameBasicResource;
use common_game::components::resource::ComplexResourceRequest as GameComplexResourceRequest;
use common_game::components::resource::GenericResource as GameGenericResource;

verus! {

/// Identifies a basic (generated) resource.
#[derive(Clone, Copy, PartialEq, Eq, Structural, Debug)]
pub enum BasicResourceType {
    Oxygen,
    Hydrogen,
    Carbon,
    Silicon,
}

/// Identifies a complex (combined) resource, and thereby a combination
/// recipe: each recipe produces exactly one complex resource.
#[derive(Clone, Copy, PartialEq, Eq, Structural, Debug)]
pub enum ComplexResourceType {
    Diamond,
    Water,
    Life,
    Robot,
    Dolphin,
    AIPartner,
}

/// Identifies a resource that is either basic or complex.
#[derive(Clone, Copy, PartialEq, Eq, Structural, Debug)]
pub enum ResourceType {
    Basic(BasicResourceType),
    Complex(ComplexResourceType),
}

/// The two inputs of each combination recipe, tagged and in submission
/// order: the pair a refused request must be decomposed into.
pub open spec fn decomposed_kinds(k: ComplexResourceType) -> (ResourceType, ResourceType) {
    match k {
        ComplexResourceType::Water => (
            ResourceType::Basic(BasicResourceType::Hydrogen),
            ResourceType::Basic(BasicResourceType::Oxygen),
        ),
        ComplexResourceType::Diamond => (
            ResourceType::Basic(BasicResourceType::Carbon),
            ResourceType::Basic(BasicResourceType::Carbon),
        ),
        ComplexResourceType::Life => (
            ResourceType::Complex(ComplexResourceType::Water),
            ResourceType::Basic(BasicResourceType::Carbon),
        ),
        ComplexResourceType::Robot => (
            ResourceType::Basic(BasicResourceType::Silicon),
            ResourceType::Complex(ComplexResourceType::Life),
        ),
        ComplexResourceType::Dolphin => (
            ResourceType::Complex(ComplexResourceType::Water),
            ResourceType::Complex(ComplexResourceType::Life),
        ),
        ComplexResourceType::AIPartner => (
            ResourceType::Complex(ComplexResourceType::Robot),
            ResourceType::Complex(ComplexResourceType::Diamond),
        ),
    }
}

/// The recipe, if any, whose two inputs are exactly the given tagged pair,
/// in that order.
pub open spec fn recombined_kind(a: ResourceType, b: ResourceType) -> Option<ComplexResourceType> {
    match (a, b) {
        (
            ResourceType::Basic(BasicResourceType::Hydrogen),
            ResourceType::Basic(BasicResourceType::Oxygen),
        ) => Some(ComplexResourceType::Water),
        (
            ResourceType::Basic(BasicResourceType::Carbon),
            ResourceType::Basic(BasicResourceType::Carbon),
        ) => Some(ComplexResourceType::Diamond),
        (
            ResourceType::Complex(ComplexResourceType::Water),
            ResourceType::Basic(BasicResourceType::Carbon),
        ) => Some(ComplexResourceType::Life),
        (
            ResourceType::Basic(BasicResourceType::Silicon),
            ResourceType::Complex(ComplexResourceType::Life),
        ) => Some(ComplexResourceType::Robot),
        (
            ResourceType::Complex(ComplexResourceType::Water),
            ResourceType::Complex(ComplexResourceType::Life),
        ) => Some(ComplexResourceType::Dolphin),
        (
            ResourceType::Complex(ComplexResourceType::Robot),
            ResourceType::Complex(ComplexResourceType::Diamond),
        ) => Some(ComplexResourceType::AIPartner),
        _ => None,
    }
}

/// Law: decomposition loses nothing.  For every combination recipe, the
/// tagged pair a refusal hands back identifies the recipe again, so the
/// explorer can resubmit the same two inputs elsewhere.
pub proof fn lemma_decomposition_round_trip(k: ComplexResourceType)
    ensures
        recombined_kind(decomposed_kinds(k).0, decomposed_kinds(k).1) == Some(k),
{
}

/// The game's wrapped basic-resource value.
#[verifier::external_type_specification]
#[verifier::external_body]
pub struct ExGameBasicResource(GameBasicResource);

/// The game's combination request: one recipe together with its two
/// owned input resources.
#[verifier::external_type_specification]
#[verifier::external_body]
pub struct ExGameComplexResourceRequest(GameComplexResourceRequest);

/// The game's tagged resource value, either basic or complex.
#[verifier::external_type_specification]
#[verifier::external_body]
pub struct ExGameGenericResource(GameGenericResource);

/// The category of a wrapped basic resource, as `BasicResource::get_type`
/// reports it.
pub uninterp spec fn basic_kind_of(r: GameBasicResource) -> BasicResourceType;

/// The category of a tagged resource value, as `GenericResource::get_type`
/// reports it.
pub uninterp spec fn generic_kind_of(r: GameGenericResource) -> ResourceType;

/// The recipe a combination request asks for: the request enum has one
/// variant per recipe, as its `Debug` and `PartialEq` forms show.
pub uninterp spec fn request_kind_of(r: GameComplexResourceRequest) -> ComplexResourceType;

/// Relies on `common_game`'s `ComplexResourceRequest` shape and its
/// `to_generic` conversions: each request variant carries the two input
/// resources of its recipe in submission order, and each arm moves them
/// out unchanged, tagged as the recipe defines them.
#[verifier::external_body]
pub fn extract_generic_resources(
    request: GameComplexResourceRequest,
) -> (r: (GameGenericResource, GameGenericResource))
    ensures
        generic_kind_of(r.0) == decomposed_kinds(request_kind_of(request)).0,
        generic_kind_of(r.1) == decomposed_kinds(request_kind_of(request)).1,
{
    match request {
        GameComplexResourceRequest::Water(a, b) => (a.to_generic(), b.to_generic()),
        GameComplexResourceRequest::Diamond(a, b) => (a.to_generic(), b.to_generic()),
        GameComplexResourceRequest::Life(a, b) => (a.to_generic(), b.to_generic()),
        GameComplexResourceRequest::Robot(a, b) => (a.to_generic(), b.to_generic()),
        GameComplexResourceRequest::Dolphin(a, b) => (a.to_generic(), b.to_generic()),
        GameComplexResourceRequest::AIPartner(a, b) => (a.to_generic(), b.to_generic()),
    }
}

} // verus!
