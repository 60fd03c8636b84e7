//! The concurrent map that the shared tables of the gateway are kept in.

use ahash::RandomState;
use dashmap::DashMap;
use vstd::prelude::*;

verus! {

/// `dashmap::DashMap`, taken as it is: what a map holds is told by a name
/// of its own wherever a map is used.
#[verifier::external_type_specification]
#[verifier::external_body]
#[verifier::reject_recursive_types(K)]
#[verifier::reject_recursive_types(V)]
#[verifier::reject_recursive_types(S)]
pub struct ExDashMap<K, V, S>(DashMap<K, V, S>);

/// `ahash::RandomState`, the hasher of the maps that are keyed by more
/// than a hash.
#[verifier::external_type_specification]
#[verifier::external_body]
pub struct ExRandomState(RandomState);

} // verus!
