//! Decision core for a generator-only ("type D") planet in the space
//! exploration game built on the `common_game` framework.
//!
//! The planet charges energy cells from sunrays, answers explorer queries,
//! synthesizes basic resources on request, and refuses combination requests
//! while handing the submitted inputs back decomposed.  Under the
//! [`ExplorerRequestLimit::FairShare`] mode a fair-share admission controller
//! arbitrates generation requests between concurrently active explorers.
//!
//! Module map:
//! - [`resources`]: resource categories and the decomposition of refused
//!   combination requests;
//! - [`cells`]: the energy-cell store;
//! - [`synthesis`]: basic-resource synthesis through the game's generator;
//! - [`fairshare`]: the fair-share admission arithmetic and its laws;
//! - [`planet`]: the message dispatcher (`AI`).

use vstd::prelude::*;

pub mod cells;
pub mod fairshare;
pub mod planet;
pub mod resources;
pub mod synthesis;

use crate::resources::BasicResourceType;
use crate::resources::ComplexResourceType;

verus! {

/// Available explorer limiting modes.
#[derive(Clone, Copy, PartialEq, Eq, Structural, Debug)]
pub enum ExplorerRequestLimit {
    /// No limit to explorer requests: every request finding a charged cell
    /// is served.
    Unrestricted,
    /// Tries to share energy-cell usage equally between active explorers.
    FairShare,
}

/// The basic resources a type D planet can generate: all four of them.
pub fn type_d_generation_rules() -> (r: Vec<BasicResourceType>)
    ensures
        r@ == seq![
            BasicResourceType::Carbon,
            BasicResourceType::Silicon,
            BasicResourceType::Oxygen,
            BasicResourceType::Hydrogen,
        ],
{
    let mut r: Vec<BasicResourceType> = Vec::new();
    r.push(BasicResourceType::Carbon);
    r.push(BasicResourceType::Silicon);
    r.push(BasicResourceType::Oxygen);
    r.push(BasicResourceType::Hydrogen);
    proof {
        assert(r@ =~= seq![
            BasicResourceType::Carbon,
            BasicResourceType::Silicon,
            BasicResourceType::Oxygen,
            BasicResourceType::Hydrogen,
        ]);
    }
    r
}

/// The combination recipes of a type D planet: none, it is generator-only.
pub fn type_d_combination_rules() -> (r: Vec<ComplexResourceType>)
    ensures
        r@.len() == 0,
{
    Vec::new()
}

} // verus!
