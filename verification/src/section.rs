//! What this crate takes for granted of `critical_section` and of
//! `core::cell::RefCell`.
//!
//! Nothing in this file is proved.  The types are opaque to the verifier, and
//! each specification states what the named function is relied upon to do.
use vstd::prelude::*;
use core::cell::BorrowMutError;
use core::cell::RefCell;
use core::cell::RefMut;
use critical_section::CriticalSection;
use critical_section::Mutex;

verus! {

/// `critical_section::Mutex`, which makes its contents reachable only from
/// inside a critical section.  Nothing is known of a value of it.
#[verifier::external_type_specification]
#[verifier::external_body]
#[verifier::reject_recursive_types(T)]
pub struct ExMutex<T>(Mutex<T>);

/// `critical_section::CriticalSection`, the token that shows that the
/// current context runs inside a critical section.
#[verifier::external_type_specification]
#[verifier::external_body]
pub struct ExCriticalSection<'cs>(CriticalSection<'cs>);

/// `core::cell::RefCell`, which checks at run time that its contents are
/// borrowed mutably at most once at a time.  Nothing is known of a value of
/// it: what it holds may change between any two looks at it.
#[verifier::external_type_specification]
#[verifier::external_body]
#[verifier::reject_recursive_types(T)]
pub struct ExRefCell<T: ?Sized>(RefCell<T>);

/// `core::cell::RefMut`, the guard of a mutable borrow from a `RefCell`.
#[verifier::external_type_specification]
#[verifier::external_body]
#[verifier::reject_recursive_types(T)]
pub struct ExRefMut<'b, T: ?Sized + 'b>(RefMut<'b, T>);

/// `core::cell::BorrowMutError`, which says that a `RefCell` was already
/// borrowed.  It carries no information.
#[verifier::external_type_specification]
#[verifier::external_body]
pub struct ExBorrowMutError(BorrowMutError);

/// `critical_section::Mutex::new` wraps a value and always returns.  Nothing
/// is claimed of the result.
pub assume_specification<T>[ Mutex::<T>::new ](value: T) -> (m: Mutex<T>);

/// `core::cell::RefCell::new` wraps a value and always returns.  Nothing is
/// claimed of the result.
pub assume_specification<T>[ RefCell::<T>::new ](value: T) -> (c: RefCell<T>);

/// `critical_section::with` acquires the critical section, calls `f` exactly
/// once with a token, releases the critical section and returns what `f`
/// returned.  So `f` must accept every token, and the result is one that `f`
/// may give for some token.  The call returns whenever `f` does.
pub assume_specification<R>[ critical_section::with::<R> ](
    f: impl FnOnce(CriticalSection) -> R,
) -> (r: R)
    requires
        forall|cs: CriticalSection| f.requires((cs,)),
    ensures
        exists|cs: CriticalSection| f.ensures((cs,), r),
;

/// `critical_section::Mutex::borrow` hands out a shared reference to the
/// contents for as long as the critical section lasts, and always returns.
/// Nothing is claimed of what the reference leads to.
pub assume_specification<'cs, T>[ Mutex::<T>::borrow ](
    m: &'cs Mutex<T>,
    cs: CriticalSection<'cs>,
) -> (r: &'cs T);

/// `core::cell::RefCell::try_borrow_mut` returns a guard if the cell is not
/// borrowed at the moment, and an error if it is; it never panics.  Which of
/// the two comes back is not claimed here.
pub assume_specification<'a, T: ?Sized>[ RefCell::<T>::try_borrow_mut ](c: &'a RefCell<T>) -> (r:
    Result<RefMut<'a, T>, BorrowMutError>);

/// `RefMut::deref_mut` hands out the mutable reference that the guard stands
/// for, and always returns.  Nothing is claimed of the value behind it: it is
/// whatever the cell held when it was borrowed.
pub assume_specification<'b, T: ?Sized, 'a>[ <RefMut<'b, T> as core::ops::DerefMut>::deref_mut ](
    g: &'a mut RefMut<'b, T>,
) -> (r: &'a mut T);

} // verus!
