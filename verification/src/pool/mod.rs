pub mod binder;
pub mod bodies;
pub mod colliders;
pub mod joints;
pub mod model;

use rg3d_core::pool::{Pool, Ticket};
use vstd::prelude::*;

verus! {

/// `rg3d_core::pool::Pool`, the generational pool of the engine. Nothing of
/// its inside is seen here; what it holds is named for each kind of object
/// where the pool of that kind is wrapped.
#[verifier::external_type_specification]
#[verifier::external_body]
#[verifier::reject_recursive_types(T)]
pub struct ExPool<T: Sized>(Pool<T>);

/// `rg3d_core::pool::Ticket`, the token that a pool hands out with an object
/// it lends, and takes back with the object or when the slot is given up.
#[verifier::external_type_specification]
#[verifier::external_body]
#[verifier::reject_recursive_types(T)]
pub struct ExTicket<T>(Ticket<T>);

} // verus!
