//! How a step of the validation walk may change its state.
use vstd::prelude::*;

use crate::catalog::ValidationState;

verus! {

/// A walk step only adds issues, and leaves the scopes and the CTE names
/// as it found them.
pub open spec fn keeps_frame(a: ValidationState, b: ValidationState) -> bool {
    &&& b.scopes@ == a.scopes@
    &&& b.cte_names@ == a.cte_names@
    &&& a.issues@.len() <= b.issues@.len()
    &&& b.issues@.take(a.issues@.len() as int) == a.issues@
}

pub broadcast proof fn lemma_keeps_frame_refl(a: ValidationState)
    ensures
        #[trigger] keeps_frame(a, a),
{
    assert(a.issues@.take(a.issues@.len() as int) =~= a.issues@);
}

pub broadcast proof fn lemma_keeps_frame_trans(a: ValidationState, b: ValidationState, c: ValidationState)
    requires
        keeps_frame(a, b),
        keeps_frame(b, c),
    ensures
        #![trigger keeps_frame(a, b), keeps_frame(b, c)]
        keeps_frame(a, c),
{
    assert(c.issues@.take(a.issues@.len() as int) =~= c.issues@.take(b.issues@.len() as int).take(
        a.issues@.len() as int,
    ));
}

} // verus!
