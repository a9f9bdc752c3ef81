//! The record protected by a shared cell's lock: the value together with
//! the registry of authorized identities, with every operation specified
//! against the model in [`crate::model`].

use vstd::prelude::*;
use vstd::seq_lib::group_seq_properties;

use crate::model::CellState;

verus! {

broadcast use group_seq_properties;

/// The composite record a shared cell protects: the wrapped value and the
/// access registry. Both are guarded by the same lock, so a registry check
/// and a value access made under one lock hold are atomic with each other.
pub struct ProtectedBox<T> {
    value: T,
    access_keys: Vec<u32>,
}

impl<T> View for ProtectedBox<T> {
    type V = CellState<T>;

    closed spec fn view(&self) -> CellState<T> {
        CellState { value: self.value, registry: self.access_keys@.to_set() }
    }
}

impl<T> ProtectedBox<T> {
    /// The registry records no identity twice. Every operation below
    /// preserves this, and the cell's lock carries it as its invariant.
    pub closed spec fn wf(&self) -> bool {
        self.access_keys@.no_duplicates()
    }

    /// Wraps `value` with an empty registry.
    pub fn new(value: T) -> (b: ProtectedBox<T>)
        ensures
            b@ == CellState::init(value),
            b.wf(),
    {
        let b = ProtectedBox { value, access_keys: Vec::new() };
        proof {
            assert(b@.registry =~= Set::<u32>::empty());
            assert(b@ =~= CellState::init(b.value));
        }
        b
    }

    /// Reports whether `id` is currently registered.
    pub fn contains(&self, id: u32) -> (present: bool)
        ensures
            present == self@.contains(id),
    {
        let n = self.access_keys.len();
        let mut i: usize = 0;
        while i < n
            invariant
                i <= n,
                n == self.access_keys.len(),
                forall|j: int| 0 <= j < i ==> self.access_keys@[j] != id,
            decreases n - i,
        {
            if self.access_keys[i] == id {
                return true;
            }
            i += 1;
        }
        proof {
            assert(!self.access_keys@.contains(id));
        }
        false
    }

    /// Registers `id` and reports whether the registration was granted:
    /// an identity that is already present is refused and nothing changes.
    pub fn register(&mut self, id: u32) -> (granted: bool)
        requires
            old(self).wf(),
        ensures
            final(self).wf(),
            granted == old(self)@.register_allowed(id),
            granted ==> final(self)@ == old(self)@.register(id),
            !granted ==> final(self)@ == old(self)@,
    {
        if self.contains(id) {
            false
        } else {
            let ghost s = self.access_keys@;
            self.access_keys.push(id);
            proof {
                assert(!s.contains(id));
                assert forall|k1: int, k2: int|
                    0 <= k1 < s.push(id).len() && 0 <= k2 < s.push(id).len() && k1 != k2 implies s.push(
                    id,
                )[k1] != s.push(id)[k2] by {
                    if k1 == s.len() {
                        assert(s.contains(s[k2]));
                    } else if k2 == s.len() {
                        assert(s.contains(s[k1]));
                    }
                }
                assert(self@.registry =~= old(self)@.registry.insert(id));
                assert(self@ =~= old(self)@.register(id));
            }
            true
        }
    }

    /// Revokes `id`; revoking an identity that is not registered changes
    /// nothing.
    pub fn deregister(&mut self, id: u32)
        requires
            old(self).wf(),
        ensures
            final(self).wf(),
            final(self)@ == old(self)@.deregister(id),
    {
        let ghost s = old(self).access_keys@;
        let mut kept: Vec<u32> = Vec::new();
        let n = self.access_keys.len();
        let mut i: usize = 0;
        while i < n
            invariant
                i <= n,
                *self == *old(self),
                n == s.len(),
                s == self.access_keys@,
                s.no_duplicates(),
                kept@.no_duplicates(),
                forall|x: u32| #[trigger] kept@.contains(x) <==> (s.subrange(0, i as int).contains(x)
                    && x != id),
            decreases n - i,
        {
            let k = self.access_keys[i];
            let ghost kp = kept@;
            proof {
                assert(s.subrange(0, i as int).push(s[i as int]) =~= s.subrange(0, i + 1));
            }
            if k != id {
                proof {
                    if kp.contains(k) {
                        let w = choose|w: int| 0 <= w < i && s.subrange(0, i as int)[w] == k;
                        assert(s[w] == s[i as int]);
                    }
                }
                kept.push(k);
                proof {
                    assert forall|k1: int, k2: int|
                        0 <= k1 < kp.push(k).len() && 0 <= k2 < kp.push(k).len() && k1 != k2 implies kp.push(
                        k,
                    )[k1] != kp.push(k)[k2] by {
                        if k1 == kp.len() {
                            assert(kp.contains(kp[k2]));
                        } else if k2 == kp.len() {
                            assert(kp.contains(kp[k1]));
                        }
                    }
                }
            }
            i += 1;
        }
        proof {
            assert(s.subrange(0, n as int) =~= s);
        }
        self.access_keys = kept;
        proof {
            assert(self@.registry =~= old(self)@.registry.remove(id));
            assert(self@ =~= old(self)@.deregister(id));
        }
    }

    /// Revokes every identity at once.
    pub fn clear(&mut self)
        ensures
            final(self).wf(),
            final(self)@ == old(self)@.clear(),
    {
        self.access_keys = Vec::new();
        proof {
            assert(self@.registry =~= Set::<u32>::empty());
            assert(self@ =~= old(self)@.clear());
        }
    }

    /// Shared view of the protected value.
    pub fn value(&self) -> (v: &T)
        ensures
            *v == self@.value,
    {
        &self.value
    }

    /// Overwrites the protected value; the registry is untouched.
    pub fn set_value(&mut self, v: T)
        ensures
            final(self)@ == old(self)@.with_value(v),
            final(self).wf() == old(self).wf(),
        no_unwind
    {
        self.value = v;
        proof {
            assert(self@ =~= old(self)@.with_value(self.value));
        }
    }
}

} // verus!
