//! What holds of the carrier's operations taken together.

use crate::carrier::CowArg;
use godot::meta::ObjectArg;
use vstd::prelude::*;

verus! {

/// A carrier made from a value, held or lent, stands for that value and
/// passes no handle on.
pub proof fn lemma_value_carrier<T>(v: T)
    ensures
        CowArg::Owned(v).has_payload(),
        CowArg::Owned(v).payload() == v,
        CowArg::Owned(v).handle() is None,
        CowArg::Borrowed(&v).has_payload(),
        CowArg::Borrowed(&v).payload() == v,
        CowArg::Borrowed(&v).handle() is None,
{
}

/// A carrier made from a handle passes on that handle and stands for no
/// value.
pub proof fn lemma_handle_carrier<'a, T>(h: ObjectArg<'a>)
    ensures
        !CowArg::<T>::FfiObject(h).has_payload(),
        CowArg::<T>::FfiObject(h).handle() == Some(h),
{
}

/// Taking the value out of a carrier that holds `v` gives `v` itself; out of
/// one that was lent `v`, a clone of `v`.
pub proof fn lemma_owned_from<T: Clone>(v: T, res: T)
    ensures
        CowArg::Owned(v).owned_from(res) <==> res == v,
        CowArg::Borrowed(&v).owned_from(res) <==> cloned(v, res),
{
}

/// Where a clone of the payload type always equals the value cloned, the value
/// taken out of a carrier is the value that the carrier stands for.
pub proof fn lemma_owned_equals_payload<'a, T: Clone>(arg: CowArg<'a, T>, res: T)
    requires
        arg.owned_from(res),
        forall|a: T, b: T| cloned(a, b) ==> a == b,
    ensures
        arg.has_payload(),
        res == arg.payload(),
{
}

/// A carrier made from a value is transparent: an operation handed on through
/// it gives what the payload's operation gives on the value itself, whether
/// the value is held or lent.
pub proof fn lemma_forward_value<'a, T, R, H, P>(v: T, on_handle: H, on_payload: P, res: R) where
    H: FnOnce(&ObjectArg<'a>) -> R,
    P: FnOnce(&T) -> R,
    ensures
        CowArg::Owned(v).forwards(on_handle, on_payload, res) <==> on_payload.ensures((&v,), res),
        CowArg::Borrowed(&v).forwards(on_handle, on_payload, res) <==> on_payload.ensures(
            (&v,),
            res,
        ),
        CowArg::Owned(v).forward_requires(on_handle, on_payload) <==> on_payload.requires((&v,)),
        CowArg::Borrowed(&v).forward_requires(on_handle, on_payload) <==> on_payload.requires(
            (&v,),
        ),
{
}

/// An operation handed on through a carrier made from a handle gives what
/// the handle's own operation gives on that handle; the payload's operation
/// has no part in it.
pub proof fn lemma_forward_handle<'a, T, R, H, P>(
    h: ObjectArg<'a>,
    on_handle: H,
    on_payload: P,
    res: R,
) where H: FnOnce(&ObjectArg<'a>) -> R, P: FnOnce(&T) -> R
    ensures
        CowArg::<T>::FfiObject(h).forwards(on_handle, on_payload, res) <==> on_handle.ensures(
            (&h,),
            res,
        ),
        CowArg::<T>::FfiObject(h).forward_requires(on_handle, on_payload) <==> on_handle.requires(
            (&h,),
        ),
{
}

/// The null carrier reports null: where the payload's null check answers
/// `true` on every value that `make_null` may give, the check handed on
/// through a carrier from `null_with(make_null)` answers `true`.
pub proof fn lemma_null_carrier_is_null<'a, T, N, H, P>(
    arg: CowArg<'a, T>,
    make_null: N,
    handle_is_null: H,
    payload_is_null: P,
    res: bool,
) where N: FnOnce() -> T, H: FnOnce(&ObjectArg<'a>) -> bool, P: FnOnce(&T) -> bool
    requires
        arg.is_null_from(make_null),
        forall|v: T, b: bool| make_null.ensures((), v) && payload_is_null.ensures((&v,), b) ==> b,
        arg.forwards(handle_is_null, payload_is_null, res),
    ensures
        arg is Owned,
        res,
{
}

} // verus!
