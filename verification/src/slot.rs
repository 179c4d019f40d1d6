//! The state of a lock: a slot that is empty until it is initialized, and
//! holds exactly one value from then on.
use vstd::prelude::*;
use crate::error::LockError;

verus! {

/// What initializing a slot in state `pre` with `val` leaves behind, and what
/// it reports: an empty slot takes the value, a full one keeps its own.
pub open spec fn init_outcome<T>(pre: Option<T>, val: T) -> (Option<T>, Result<(), LockError>) {
    match pre {
        None => (Some(val), Ok(())),
        Some(_) => (pre, Err(LockError::Reinitialized)),
    }
}

/// Whether an access to a slot in state `pre` may leave the slot in state
/// `post` and report `r`, where `effect(before, after, out)` tells whether the
/// callback, given the value `before`, may leave `after` and return `out`.
///
/// On an empty slot nothing changes and the access is refused.  On a full one
/// the callback runs once on the value held, the slot holds what the callback
/// left, and the callback's result is passed through.
pub open spec fn access_outcome<T, R>(
    pre: Option<T>,
    effect: spec_fn(T, T, R) -> bool,
    post: Option<T>,
    r: Result<R, LockError>,
) -> bool {
    match pre {
        None => post == pre && r == Err::<R, LockError>(LockError::Uninitialized),
        Some(held) => exists|left: T, out: R| #[trigger]
            effect(held, left, out) && post == Some(left) && r == Ok::<R, LockError>(out),
    }
}

/// A place for zero or one value of type `T`.
#[derive(Debug)]
pub struct Slot<T> {
    contents: Option<T>,
}

impl<T> View for Slot<T> {
    type V = Option<T>;

    closed spec fn view(&self) -> Option<T> {
        self.contents
    }
}

impl<T> Slot<T> {
    /// Creates an empty slot.
    pub fn new() -> (slot: Self)
        ensures
            slot@ == None::<T>,
    {
        Slot { contents: None }
    }

    /// Tells whether the slot holds a value.
    pub fn is_initialized(&self) -> (full: bool)
        ensures
            full == (self@ is Some),
    {
        self.contents.is_some()
    }

    /// Puts `val` into the slot if it is empty, and refuses if it is not.
    pub fn init(&mut self, val: T) -> (r: Result<(), LockError>)
        ensures
            (final(self)@, r) == init_outcome(old(self)@, val),
    {
        if self.contents.is_none() {
            self.contents = Some(val);
            Ok(())
        } else {
            Err(LockError::Reinitialized)
        }
    }

    /// Runs `f` on the value held and hands back its result, or refuses if
    /// the slot is empty.
    pub fn access<R, F: FnOnce(&mut T) -> R>(&mut self, f: F) -> (r: Result<R, LockError>)
        requires
            forall|v: &mut T| old(self)@ == Some(*v) ==> f.requires((v,)),
        ensures
            access_outcome(
                old(self)@,
                |before: T, left: T, out: R|
                    exists|v: &mut T|
                        *v == before && *final(v) == left && #[trigger] f.ensures((v,), out),
                final(self)@,
                r,
            ),
    {
        match &mut self.contents {
            Some(held) => {
                let ghost before = *held;
                let out = f(&mut *held);
                proof {
                    let effect = |before: T, left: T, out: R|
                        exists|v: &mut T|
                            *v == before && *final(v) == left && #[trigger] f.ensures((v,), out);
                    assert(effect(before, *held, out));
                }
                Ok(out)
            },
            None => Err(LockError::Uninitialized),
        }
    }
}

/// An access to an empty slot is refused and leaves the slot empty, whatever
/// the callback.
pub proof fn law_empty_refuses_access<T, R>(
    effect: spec_fn(T, T, R) -> bool,
    post: Option<T>,
    r: Result<R, LockError>,
)
    requires
        access_outcome(None::<T>, effect, post, r),
    ensures
        post == None::<T>,
        r == Err::<R, LockError>(LockError::Uninitialized),
{
}

/// Initialization succeeds exactly on an empty slot; on a full one it is
/// refused as a reinitialization and the slot keeps what it held.
pub proof fn law_init_only_when_empty<T>(pre: Option<T>, val: T)
    ensures
        init_outcome(pre, val).1 is Ok <==> pre is None,
        pre is None ==> init_outcome(pre, val) == (Some(val), Ok::<(), LockError>(())),
        pre is Some ==> init_outcome(pre, val) == (
            pre,
            Err::<(), LockError>(LockError::Reinitialized),
        ),
{
}

/// Of two initializations of a fresh slot the first succeeds and the second
/// is refused; a read that follows finds the first value.
pub proof fn law_init_once<T>(v1: T, v2: T, post: Option<T>, r: Result<T, LockError>)
    requires
        access_outcome(
            init_outcome(init_outcome(None::<T>, v1).0, v2).0,
            |before: T, left: T, out: T| left == before && out == before,
            post,
            r,
        ),
    ensures
        init_outcome(None::<T>, v1).1 == Ok::<(), LockError>(()),
        init_outcome(init_outcome(None::<T>, v1).0, v2).1 == Err::<(), LockError>(
            LockError::Reinitialized,
        ),
        r == Ok::<T, LockError>(v1),
        post == Some(v1),
{
}

/// After a slot is initialized with `x`, an access whose callback replaces
/// the value by `g` of it, followed by a read, yields `g(x)`.
pub proof fn law_round_trip<T>(
    x: T,
    g: spec_fn(T) -> T,
    mid: Option<T>,
    r1: Result<(), LockError>,
    post: Option<T>,
    r2: Result<T, LockError>,
)
    requires
        access_outcome(
            init_outcome(None::<T>, x).0,
            |before: T, left: T, out: ()| left == g(before),
            mid,
            r1,
        ),
        access_outcome(mid, |before: T, left: T, out: T| left == before && out == before, post, r2),
    ensures
        r1 == Ok::<(), LockError>(()),
        mid == Some(g(x)),
        r2 == Ok::<T, LockError>(g(x)),
        post == Some(g(x)),
{
}

/// No operation empties a slot: after an initialization the slot is full,
/// and an access leaves a slot full exactly if it found it full.
pub proof fn law_never_emptied<T, R>(
    pre: Option<T>,
    val: T,
    effect: spec_fn(T, T, R) -> bool,
    post: Option<T>,
    r: Result<R, LockError>,
)
    requires
        access_outcome(pre, effect, post, r),
    ensures
        init_outcome(pre, val).0 is Some,
        post is Some <==> pre is Some,
        r is Ok <==> pre is Some,
{
}

/// An access does no more than its callback ensures: if every run of `f`
/// that takes a value `a` to `b` and returns `out` is allowed by `effect`,
/// then an access with `f` is an access of that effect.
pub proof fn law_callback_bounds_access<T, R, F: FnOnce(&mut T) -> R>(
    f: F,
    effect: spec_fn(T, T, R) -> bool,
    pre: Option<T>,
    post: Option<T>,
    r: Result<R, LockError>,
)
    requires
        forall|v: &mut T, out: R| #[trigger] f.ensures((v,), out) ==> effect(*v, *final(v), out),
        access_outcome(
            pre,
            |before: T, left: T, out: R|
                exists|v: &mut T|
                    *v == before && *final(v) == left && #[trigger] f.ensures((v,), out),
            post,
            r,
        ),
    ensures
        access_outcome(pre, effect, post, r),
{
}

} // verus!
