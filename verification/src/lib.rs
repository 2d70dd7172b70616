//! Configuration resolution and spatial tagging for the points of interest
//! of a game world.
//!
//! The library takes the reflected objects of an asset dump and resolves
//! them to delivery points, bus stops, chargers, houses and area volumes:
//! references between objects are followed, attributes are resolved through
//! the cascade of instance, type default and template, storage rules are
//! expanded over the cargo taxonomy and merged with demand and production
//! rules, points are tagged with the regions that contain them, and linked
//! entities take over the capacities of their drop points.
//!
//! Reading and writing files is left to the caller.

use vstd::prelude::*;

pub mod capacity;
pub mod bus_stop;
pub mod cargo_map;
pub mod cascade;
pub mod delivery_point;
pub mod entity;
pub mod error;
pub mod extract;
pub mod helper;
pub mod merge;
pub mod output_type;
pub mod places;
pub mod propagate;
pub mod resolve;
pub mod spatial;
pub mod taxonomy;
pub mod text;
pub mod ue_type;

verus! {

/// Presentation predicate: a flag that is not set.
pub fn is_false(boolean: &bool) -> (r: bool)
    ensures
        r == !*boolean,
{
    !*boolean
}

} // verus!
