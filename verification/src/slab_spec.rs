//! `slab::Slab` as the verifier sees it: an opaque collection. What each
//! table of the runtime holds is named where the table is defined.

use vstd::prelude::*;

verus! {

/// `slab::Slab`, carried through verified code without looking inside.
#[verifier::external_type_specification]
#[verifier::external_body]
#[verifier::reject_recursive_types(T)]
pub struct ExSlab<T>(slab::Slab<T>);

/// The most slots a slab may have handed out when one more is asked for.
/// It keeps the slab's storage far below the size at which `Slab::insert`
/// panics.
pub open spec fn slot_bound() -> nat {
    0x1_0000
}

} // verus!
