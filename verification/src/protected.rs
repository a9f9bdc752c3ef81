//! Owner and user handles over a shared cell, together with the scoped
//! read and write guards that lock acquisition returns.
//!
//! One readers-writer lock protects the composite record of value and
//! access registry, so a user's registry check and the grant of its guard
//! happen under a single lock hold: a revocation is visible to every
//! acquisition that starts after it.

use vstd::prelude::*;
use vstd::rwlock::{ReadHandle, RwLock, RwLockPredicate, WriteHandle};

use std::marker::PhantomData;
use std::sync::Arc;

use crate::cell::ProtectedBox;
use crate::model::CellState;

verus! {

/// Zero-sized type used to mark instances of `Protected<T>` that
/// "own" the `T` in the sense that they manage access to it.
pub struct Owner;

/// Zero-sized type used to mark instances of `Protected<T>` that
/// may have access to `T` as long as the owner allows it.
pub struct User;

/// Indicates that the user no longer has access to `T`.
#[derive(Debug)]
pub struct AccessDeniedError;

/// The invariant the cell's lock maintains: the registry inside the
/// protected record never records an identity twice.
pub struct CellInv;

impl<T> RwLockPredicate<ProtectedBox<T>> for CellInv {
    open spec fn inv(self, b: ProtectedBox<T>) -> bool {
        b.wf()
    }
}

/// A smart pointer that grants access to `T` for as long as the owner
/// allows.
///
/// The owner of `T` is allowed to create and remove users that have
/// access to `T`; every handle, owner or user, reaches the value through
/// the same lock-protected cell.
#[verifier::reject_recursive_types(T)]
#[verifier::reject_recursive_types(Access)]
pub struct Protected<T, Access> {
    inner: Arc<RwLock<ProtectedBox<T>, CellInv>>,
    access_key: Option<u32>,
    _marker: PhantomData<Access>,
}

/// Scoped structure granting shared read access to the cell; the lock
/// hold is given back by [`ProtectedReadGuard::release`].
pub struct ProtectedReadGuard<'a, T> {
    handle: ReadHandle<'a, ProtectedBox<T>, CellInv>,
}

/// Scoped structure granting exclusive write access to the cell; the
/// lock hold is given back by [`ProtectedWriteGuard::release`].
pub struct ProtectedWriteGuard<'a, T> {
    cell: ProtectedBox<T>,
    handle: WriteHandle<'a, ProtectedBox<T>, CellInv>,
}

impl<T, Access> Protected<T, Access> {
    /// The access key this handle presents: `None` for the owner, the
    /// user's identity otherwise.
    pub closed spec fn key(&self) -> Option<u32> {
        self.access_key
    }

    /// The lock-protected cell this handle reaches.
    pub closed spec fn cell(&self) -> RwLock<ProtectedBox<T>, CellInv> {
        *self.inner
    }

    /// Whether two handles reach the same cell.
    pub open spec fn same_cell<B>(&self, other: &Protected<T, B>) -> bool {
        self.cell() == other.cell()
    }
}

impl<T> Protected<T, Owner> {
    /// Creates a `Protected` access to `T`.
    ///
    /// The instance returned by this function is considered the _owner_
    /// of `T`: its accesses are unconditional, and it alone can grant and
    /// revoke user access. The cell starts with an empty registry.
    pub fn new(value: T) -> (owner: Protected<T, Owner>)
        ensures
            owner.key() is None,
    {
        let cell = ProtectedBox::new(value);
        let inner = Arc::new(RwLock::new(cell, Ghost(CellInv)));
        Protected { inner, access_key: None, _marker: PhantomData }
    }

    /// Grants access to `T` to a user with a given ID.
    ///
    /// This function returns a new `Protected` access to `T`, only if a
    /// user with the given ID does not already exist; registration of an
    /// identity that is present in the registry is refused and leaves the
    /// registry unchanged.
    pub fn create_user(&self, id: u32) -> (user: Option<Protected<T, User>>)
        ensures
            user matches Some(u) ==> u.key() == Some(id) && u.same_cell(self),
    {
        let (mut cell, handle) = self.inner.acquire_write();
        let granted = cell.register(id);
        handle.release_write(cell);
        if granted {
            Some(Protected { inner: self.inner.clone(), access_key: Some(id), _marker: PhantomData })
        } else {
            None
        }
    }

    /// Revokes access to `T` for a user with a given ID; revoking an
    /// identity that is not registered changes nothing. Acquisitions that
    /// start after this call no longer see `id` in the registry.
    pub fn remove_user(&self, id: u32) {
        let (mut cell, handle) = self.inner.acquire_write();
        cell.deregister(id);
        handle.release_write(cell);
    }

    /// Locks this `T` so that the owner has shared read access to `T`.
    /// The owner's access is never subject to the registry.
    pub fn read(&self) -> (guard: ProtectedReadGuard<'_, T>)
        ensures
            guard.cell() == self.cell(),
    {
        let handle = self.inner.acquire_read();
        ProtectedReadGuard { handle }
    }

    /// Locks this `T` so that the owner has exclusive write access to
    /// `T`. The owner's access is never subject to the registry.
    pub fn write(&self) -> (guard: ProtectedWriteGuard<'_, T>)
        ensures
            guard.cell() == self.cell(),
    {
        let (cell, handle) = self.inner.acquire_write();
        ProtectedWriteGuard { cell, handle }
    }

    /// Tears the owner down: every identity is revoked before the owner
    /// lets go of its reference, so acquisitions that start after this
    /// call are denied for every user.
    pub fn destroy(self) {
        let (mut cell, handle) = self.inner.acquire_write();
        cell.clear();
        handle.release_write(cell);
    }
}

impl<T> Protected<T, User> {
    /// Locks this `T` so that this user has shared read access to `T`.
    ///
    /// # Errors
    ///
    /// This function returns an error if, when the lock is acquired, this
    /// user's identity is not in the registry: the owner was destroyed,
    /// or it revoked this user's access.
    pub fn read(&self) -> (r: Result<ProtectedReadGuard<'_, T>, AccessDeniedError>)
        ensures
            r matches Ok(guard) ==> guard.cell() == self.cell() && (self.key() matches Some(id)
                && guard.state().contains(id)),
            self.key() is None ==> r is Err,
    {
        let id = match self.access_key {
            Some(id) => id,
            None => {
                return Err(AccessDeniedError);
            },
        };
        let handle = self.inner.acquire_read();
        if handle.borrow().contains(id) {
            Ok(ProtectedReadGuard { handle })
        } else {
            handle.release_read();
            Err(AccessDeniedError)
        }
    }

    /// Locks this `T` so that this user has exclusive write access to
    /// `T`.
    ///
    /// # Errors
    ///
    /// This function returns an error if, when the lock is acquired, this
    /// user's identity is not in the registry: the owner was destroyed,
    /// or it revoked this user's access.
    pub fn write(&self) -> (r: Result<ProtectedWriteGuard<'_, T>, AccessDeniedError>)
        ensures
            r matches Ok(guard) ==> guard.cell() == self.cell() && (self.key() matches Some(id)
                && guard.state().contains(id)),
            self.key() is None ==> r is Err,
    {
        let id = match self.access_key {
            Some(id) => id,
            None => {
                return Err(AccessDeniedError);
            },
        };
        let (cell, handle) = self.inner.acquire_write();
        if cell.contains(id) {
            Ok(ProtectedWriteGuard { cell, handle })
        } else {
            handle.release_write(cell);
            Err(AccessDeniedError)
        }
    }

    /// Resigns this user's own access: its identity, and only its
    /// identity, is removed from the registry before the handle lets go
    /// of its reference.
    pub fn destroy(self) {
        match self.access_key {
            Some(id) => {
                let (mut cell, handle) = self.inner.acquire_write();
                cell.deregister(id);
                handle.release_write(cell);
            },
            None => {},
        }
    }
}

impl<'a, T> ProtectedReadGuard<'a, T> {
    /// The cell state this guard holds the lock over.
    pub closed spec fn state(&self) -> CellState<T> {
        self.handle.view()@
    }

    /// The lock this guard holds.
    pub closed spec fn cell(&self) -> RwLock<ProtectedBox<T>, CellInv> {
        self.handle.rwlock()
    }

    /// Shared view of the protected value.
    pub fn value(&self) -> (v: &T)
        ensures
            *v == self.state().value,
    {
        self.handle.borrow().value()
    }

    /// Gives the shared lock hold back.
    pub fn release(self) {
        self.handle.release_read();
    }
}

impl<'a, T> ProtectedWriteGuard<'a, T> {
    #[verifier::type_invariant]
    spec fn lock_inv(self) -> bool {
        self.handle.rwlock().inv(self.cell)
    }

    /// The cell state this guard holds the lock over.
    pub closed spec fn state(&self) -> CellState<T> {
        self.cell@
    }

    /// The lock this guard holds.
    pub closed spec fn cell(&self) -> RwLock<ProtectedBox<T>, CellInv> {
        self.handle.rwlock()
    }

    /// Read-only view of the protected value.
    pub fn value(&self) -> (v: &T)
        ensures
            *v == self.state().value,
    {
        self.cell.value()
    }

    /// Overwrites the protected value; the registry is untouched, and the
    /// new value is what every later read of this guard, and of the cell
    /// once the guard is released, observes.
    pub fn set(&mut self, v: T)
        ensures
            final(self).state() == old(self).state().with_value(v),
            final(self).cell() == old(self).cell(),
    {
        proof {
            use_type_invariant(&*self);
        }
        self.cell.set_value(v);
    }

    /// Gives the exclusive lock hold back, publishing the value written
    /// through this guard to the cell.
    pub fn release(self) {
        proof {
            use_type_invariant(&self);
        }
        let ProtectedWriteGuard { cell, handle } = self;
        handle.release_write(cell);
    }
}

} // verus!
