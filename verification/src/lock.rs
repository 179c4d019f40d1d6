//! The lock: a slot behind a critical section.
use vstd::prelude::*;
use core::cell::RefCell;
use critical_section::CriticalSection;
use critical_section::Mutex;
use crate::error::LockError;
use crate::slot::Slot;
use crate::slot::access_outcome;
use crate::slot::init_outcome;

verus! {

/// Whether initializing a lock with `val` may report `r`: what initializing
/// a slot reports on some state, or that the lock was busy.
pub open spec fn init_report<T>(val: T, r: Result<(), LockError>) -> bool {
    r == Err::<(), LockError>(LockError::Reentered) || exists|pre: Option<T>|
        r == (#[trigger] init_outcome(pre, val)).1
}

/// Whether an access to a lock with a callback of the given effect may report
/// `r`: what an access to a slot reports on some state, or that the lock was
/// busy.
pub open spec fn access_report<T, R>(
    effect: spec_fn(T, T, R) -> bool,
    r: Result<R, LockError>,
) -> bool {
    r == Err::<R, LockError>(LockError::Reentered) || exists|pre: Option<T>, post: Option<T>|
        #[trigger] access_outcome(pre, effect, post, r)
}

/// A lock with interior mutability for the data inside.
///
/// The lock starts empty, is initialized once, and from then on hands its
/// value to callbacks that run inside a critical section.  Every method takes
/// the lock by shared reference, so that one lock can serve the main context
/// and the interrupt handlers alike.  For the same reason no contract here
/// can speak of the state the lock is in: between two calls any other holder
/// of the reference may have used it.  The contracts say which slot
/// transition a call performs on the state it finds; what each transition
/// does is stated and proved in `slot`.
#[derive(Debug)]
#[verifier::reject_recursive_types(T)]
pub struct LockMut<T> {
    cell: Mutex<RefCell<Slot<T>>>,
}

impl<T> LockMut<T> {
    /// Creates a new empty lock.
    pub fn new() -> (lock: Self) {
        LockMut { cell: Mutex::new(RefCell::new(Slot::new())) }
    }

    /// Initializes a lock that was not initialized before.
    ///
    /// Inside a critical section, the value is put into the slot if the slot
    /// is empty.  The result is that of `Slot::init` on the state found, or
    /// `Reentered` if the call was made from inside a callback of `with_lock`
    /// on this lock.
    pub fn init(&self, val: T) -> (r: Result<(), LockError>)
        ensures
            init_report(val, r),
    {
        let cell = &self.cell;
        critical_section::with(
            |cs: CriticalSection| -> (o: Result<(), LockError>)
                ensures init_report(val, o)
            {
                match cell.borrow(cs).try_borrow_mut() {
                    Ok(mut guard) => {
                        let slot: &mut Slot<T> = &mut *guard;
                        let ghost pre = slot@;
                        let o = slot.init(val);
                        assert(o == init_outcome(pre, val).1);
                        o
                    },
                    Err(_) => Err(LockError::Reentered),
                }
            },
        )
    }

    /// Locks, then runs `f` with a mutable reference to the locked data, and
    /// hands back what `f` returned.
    ///
    /// Inside a critical section, `f` runs once on the value held, if there
    /// is one.  The result is that of `Slot::access` on the state found, or
    /// `Reentered` if the call was made from inside another callback of
    /// `with_lock` on this lock; `f` has then not run.
    pub fn with_lock<R, F: FnOnce(&mut T) -> R>(&self, f: F) -> (r: Result<R, LockError>)
        requires
            forall|v: &mut T| f.requires((v,)),
        ensures
            access_report(
                |before: T, left: T, out: R|
                    exists|v: &mut T|
                        *v == before && *final(v) == left && #[trigger] f.ensures((v,), out),
                r,
            ),
    {
        let cell = &self.cell;
        critical_section::with(
            |cs: CriticalSection| -> (o: Result<R, LockError>)
                ensures access_report(
                    |before: T, left: T, out: R|
                        exists|v: &mut T|
                            *v == before && *final(v) == left && #[trigger] f.ensures((v,), out),
                    o,
                )
            {
                match cell.borrow(cs).try_borrow_mut() {
                    Ok(mut guard) => {
                        let slot: &mut Slot<T> = &mut *guard;
                        let ghost pre = slot@;
                        let o = slot.access(f);
                        assert(access_outcome(
                            pre,
                            |before: T, left: T, out: R|
                                exists|v: &mut T|
                                    *v == before && *final(v) == left && #[trigger] f.ensures(
                                        (v,),
                                        out,
                                    ),
                            slot@,
                            o,
                        ));
                        o
                    },
                    Err(_) => Err(LockError::Reentered),
                }
            },
        )
    }
}

/// Whatever state a lock is found in, an initialization never reports that
/// the lock is uninitialized, and an access never reports a
/// reinitialization; an access that reports success returns what one run of
/// its callback returned.
pub proof fn law_reports<T, R>(
    val: T,
    r_init: Result<(), LockError>,
    effect: spec_fn(T, T, R) -> bool,
    r_access: Result<R, LockError>,
)
    requires
        init_report(val, r_init),
        access_report(effect, r_access),
    ensures
        r_init != Err::<(), LockError>(LockError::Uninitialized),
        r_access != Err::<R, LockError>(LockError::Reinitialized),
        r_access matches Ok(out) ==> exists|before: T, left: T| #[trigger] effect(before, left, out),
{
    if r_access is Ok {
        let (pre, post) = choose|pre: Option<T>, post: Option<T>| #[trigger]
            access_outcome(pre, effect, post, r_access);
        let held = pre->0;
        let (left, out) = choose|left: T, out: R| #[trigger]
            effect(held, left, out) && post == Some(left) && r_access == Ok::<R, LockError>(out);
        assert(effect(held, left, r_access->Ok_0));
    }
}

} // verus!
