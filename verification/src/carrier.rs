//! The carrier itself and its accessors.

use crate::ref_arg::RefArg;
use godot::meta::ObjectArg;
use vstd::prelude::*;

verus! {

/// The value to pass for one call argument.
#[derive(PartialEq)]
pub enum CowArg<'arg, T> {
    /// A value that the carrier holds.
    Owned(T),
    /// A value lent to the carrier for the call.
    Borrowed(&'arg T),
    /// A handle to an engine object, passed on as it is. Only for payload
    /// types that stand for an engine object.
    FfiObject(ObjectArg<'arg>),
}

impl<'arg, T> CowArg<'arg, T> {
    /// Whether the carrier stands for a value, held or lent.
    pub open spec fn has_payload(self) -> bool {
        !(self is FfiObject)
    }

    /// The value that the carrier stands for.
    pub open spec fn payload(self) -> T
        recommends
            self.has_payload(),
    {
        match self {
            CowArg::Owned(v) => v,
            CowArg::Borrowed(r) => *r,
            CowArg::FfiObject(_) => arbitrary(),
        }
    }

    /// The handle that the carrier passes on, if it is one.
    pub open spec fn handle(self) -> Option<ObjectArg<'arg>> {
        match self {
            CowArg::FfiObject(h) => Some(h),
            _ => None,
        }
    }

    /// What `cow_into_owned` may return: the held value itself, or a clone of
    /// the lent one.
    pub open spec fn owned_from(self, res: T) -> bool where T: Clone {
        match self {
            CowArg::Owned(v) => res == v,
            CowArg::Borrowed(r) => cloned(*r, res),
            CowArg::FfiObject(_) => false,
        }
    }

    /// The payload as a value of the caller's own: the held value itself,
    /// or a clone of the lent one, which stays as it was. A carrier that
    /// passes a handle on has no payload to give.
    pub fn cow_into_owned(self) -> (res: T) where T: Clone
        requires
            self.has_payload(),
        ensures
            self.owned_from(res),
    {
        match self {
            CowArg::Owned(v) => v,
            CowArg::Borrowed(r) => r.clone(),
            CowArg::FfiObject(_) => unreached(),
        }
    }

    /// The payload in place, held or lent. A carrier that passes a handle on
    /// has no payload to give.
    pub fn cow_as_ref(&self) -> (res: &T)
        requires
            self.has_payload(),
        ensures
            *res == self.payload(),
    {
        match self {
            CowArg::Owned(v) => v,
            CowArg::Borrowed(r) => r,
            CowArg::FfiObject(_) => unreached(),
        }
    }

    /// The argument as the call path takes it: a view of the payload. A
    /// carrier that passes a handle on is asked for the handle instead, with
    /// `try_extract_object_arg`.
    pub fn cow_as_arg(&self) -> (res: RefArg<'_, T>)
        requires
            self.has_payload(),
        ensures
            res@ == self.payload(),
    {
        RefArg::new(self.cow_as_ref())
    }

    /// The handle, where the carrier passes one on; `None` where it stands for
    /// a value.
    pub fn try_extract_object_arg(&self) -> (res: Option<ObjectArg<'arg>>)
        ensures
            res == self.handle(),
            res is None <==> self.has_payload(),
    {
        match self {
            CowArg::FfiObject(obj_arg) => Some(obj_arg.clone()),
            _ => None,
        }
    }

    /// What `forward` requires of the two operations: the one that the carrier
    /// will call accepts what the carrier holds.
    pub open spec fn forward_requires<R, H, P>(self, on_handle: H, on_payload: P) -> bool where
        H: FnOnce(&ObjectArg<'arg>) -> R,
        P: FnOnce(&T) -> R,
    {
        match self {
            CowArg::FfiObject(h) => on_handle.requires((&h,)),
            _ => on_payload.requires((&self.payload(),)),
        }
    }

    /// What `forward` returns: a result of the handle's operation on the
    /// handle, or a result of the payload's operation on the payload.
    pub open spec fn forwards<R, H, P>(self, on_handle: H, on_payload: P, res: R) -> bool where
        H: FnOnce(&ObjectArg<'arg>) -> R,
        P: FnOnce(&T) -> R,
    {
        match self {
            CowArg::FfiObject(h) => on_handle.ensures((&h,), res),
            _ => on_payload.ensures((&self.payload(),), res),
        }
    }

    /// Hands one operation of the boundary on to what the carrier holds: to
    /// the handle itself where it holds one, to the payload in place
    /// otherwise. Nothing is copied and only one of the two is called.
    pub fn forward<R, H, P>(&self, on_handle: H, on_payload: P) -> (res: R) where
        H: FnOnce(&ObjectArg<'arg>) -> R,
        P: FnOnce(&T) -> R,
        requires
            self.forward_requires(on_handle, on_payload),
        ensures
            self.forwards(on_handle, on_payload, res),
    {
        match self {
            CowArg::FfiObject(obj_arg) => on_handle(obj_arg),
            _ => on_payload(self.cow_as_ref()),
        }
    }

    /// What `null_with` returns: a carrier that holds a value that `make_null`
    /// may give.
    pub open spec fn is_null_from<N>(self, make_null: N) -> bool where N: FnOnce() -> T {
        self matches CowArg::Owned(v) && make_null.ensures((), v)
    }

    /// The null carrier: it holds the payload type's null value, which
    /// `make_null` gives.
    pub fn null_with<N>(make_null: N) -> (res: Self) where N: FnOnce() -> T
        requires
            make_null.requires(()),
        ensures
            res.is_null_from(make_null),
    {
        CowArg::Owned(make_null())
    }
}

} // verus!
