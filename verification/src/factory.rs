//! What a factory knows of the drivers it can produce.

pub mod production_order;
pub mod store;

use vstd::prelude::*;
use vstd::string::*;

verus! {

/// Reference of the driver that a producer makes: "manufacturer.model".
pub open spec fn producer_ref_text(manufacturer: Seq<char>, model: Seq<char>) -> Seq<char> {
    manufacturer + "."@ + model
}

/// Builds the reference under which a producer is registered.
pub fn producer_ref(manufacturer: &str, model: &str) -> (r: String)
    ensures
        r@ == producer_ref_text(manufacturer@, model@),
{
    manufacturer.to_owned().concat(".").concat(model)
}

} // verus!
