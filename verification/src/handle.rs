//! What this library takes on trust about `godot::meta::ObjectArg`, the
//! engine's view of an object argument.

use godot::meta::ObjectArg;
use vstd::prelude::*;

verus! {

/// `godot::meta::ObjectArg`: a non-owning view of an engine object, or null.
/// Nothing inside it is visible here; a carrier only holds it and hands it on.
#[verifier::external_type_specification]
#[verifier::external_body]
pub struct ExObjectArg<'gd>(ObjectArg<'gd>);

/// `<ObjectArg as Clone>::clone` copies the object pointer into a new view and
/// touches nothing else, so the copy is the same handle as the one copied.
pub assume_specification<'gd>[ <ObjectArg<'gd> as Clone>::clone ](handle: &ObjectArg<'gd>) -> (res:
    ObjectArg<'gd>)
    ensures
        res == *handle,
;

} // verus!
