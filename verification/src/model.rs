//! The mathematical model of a shared cell: its value together with the
//! set of identities that are currently authorized to access it.
//!
//! The executable cell in [`crate::cell`] is specified against the
//! transitions below, and the laws at the end of this module state how the
//! transitions interact.

use vstd::prelude::*;

verus! {

/// Abstract state of a shared cell: the protected value and the registry
/// of authorized identities.
#[verifier::ext_equal]
pub struct CellState<T> {
    pub value: T,
    pub registry: Set<u32>,
}

impl<T> CellState<T> {
    /// The state of a freshly created cell: the wrapped value, no user
    /// authorized yet.
    pub open spec fn init(value: T) -> CellState<T> {
        CellState { value, registry: Set::empty() }
    }

    /// Whether `id` is currently authorized.
    pub open spec fn contains(self, id: u32) -> bool {
        self.registry.contains(id)
    }

    /// Whether a registration of `id` would be granted: only an identity
    /// that is not already present can be registered.
    pub open spec fn register_allowed(self, id: u32) -> bool {
        !self.registry.contains(id)
    }

    /// The state after a granted registration of `id`.
    pub open spec fn register(self, id: u32) -> CellState<T> {
        CellState { registry: self.registry.insert(id), ..self }
    }

    /// The state after `id` is revoked; absent identities are left alone.
    pub open spec fn deregister(self, id: u32) -> CellState<T> {
        CellState { registry: self.registry.remove(id), ..self }
    }

    /// The state after every identity is revoked at once.
    pub open spec fn clear(self) -> CellState<T> {
        CellState { registry: Set::empty(), ..self }
    }

    /// The state after the protected value is overwritten with `v`.
    pub open spec fn with_value(self, v: T) -> CellState<T> {
        CellState { value: v, ..self }
    }
}

/// Wrapping a value and immediately reading it back yields that value.
pub proof fn lemma_init_then_read<T>(v: T)
    ensures
        CellState::init(v).value == v,
{
}

/// Writing `v2` makes `v2` the value that every subsequent read of the
/// same cell state observes; the registry is untouched by a write.
pub proof fn lemma_write_then_read<T>(c: CellState<T>, v2: T)
    ensures
        c.with_value(v2).value == v2,
        c.with_value(v2).registry == c.registry,
{
}

/// A fresh identity can be registered, and a second registration of the
/// same identity is refused while the first is still in force.
pub proof fn lemma_register_refuses_duplicate<T>(c: CellState<T>, id: u32)
    requires
        c.register_allowed(id),
    ensures
        c.register(id).contains(id),
        !c.register(id).register_allowed(id),
{
}

/// After an identity is revoked — alone or by clearing the whole registry —
/// the same identity can be registered again.
pub proof fn lemma_identity_reuse<T>(c: CellState<T>, id: u32)
    ensures
        c.register(id).deregister(id).register_allowed(id),
        c.clear().register_allowed(id),
{
}

/// A registered identity is authorized, and stops being authorized the
/// moment it is revoked.
pub proof fn lemma_revocation_denies<T>(c: CellState<T>, id: u32)
    ensures
        c.register(id).contains(id),
        !c.deregister(id).contains(id),
{
}

/// Clearing the registry leaves no identity authorized, whether or not it
/// was revoked individually first.
pub proof fn lemma_clear_denies_all<T>(c: CellState<T>, id: u32)
    ensures
        !c.clear().contains(id),
{
}

/// Registering one identity authorizes no other identity.
pub proof fn lemma_register_is_selective<T>(c: CellState<T>, id: u32, other: u32)
    requires
        other != id,
    ensures
        c.register(id).contains(other) == c.contains(other),
{
}

/// Revoking one identity leaves every other identity untouched.
pub proof fn lemma_deregister_is_selective<T>(c: CellState<T>, id: u32, other: u32)
    requires
        other != id,
    ensures
        c.deregister(id).contains(other) == c.contains(other),
{
}

/// A write is visible to every authorized identity: after any writer
/// stores `v2`, a read on behalf of any still-authorized reader sees `v2`.
pub proof fn lemma_write_visible_to_all<T>(c: CellState<T>, v2: T, reader: u32)
    requires
        c.contains(reader),
    ensures
        c.with_value(v2).contains(reader),
        c.with_value(v2).value == v2,
{
}

} // verus!
