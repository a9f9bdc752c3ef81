//! A hypothetical CAN interface whose protocol state — closed, open, or
//! receiving — is carried in the type, so that only the operations of the
//! current state can be called. Closing is an inherent method of each
//! state that allows it; [`crate::can_close`] encodes the same interface
//! with closing as a trait.

use vstd::prelude::*;

use std::marker::PhantomData;

verus! {

/// A hypothetical CAN interface.
pub struct Can<State> {
    _marker: PhantomData<State>,
}

/// Open interface.
pub struct Open;

/// Interface in receiving mode.
pub struct Receiving;

/// Closed interface.
pub struct Closed;

impl Can<Closed> {
    /// Create a CAN interface.
    pub fn new() -> Self {
        Can { _marker: PhantomData }
    }

    /// Open a closed interface.
    pub fn open(self) -> Can<Open> {
        Can { _marker: PhantomData }
    }
}

impl Default for Can<Closed> {
    fn default() -> Self {
        Self::new()
    }
}

impl Can<Open> {
    /// Send a payload to an open interface; the stub transport accepts
    /// every payload.
    pub fn send(&mut self, payload: u32) -> (r: Result<(), &str>)
        ensures
            r is Ok,
    {
        let _ = payload;
        Ok(())
    }

    /// Set the interface in receiving mode.
    pub fn set_receive(self) -> Can<Receiving> {
        Can { _marker: PhantomData }
    }

    /// Close an open interface.
    pub fn close(self) -> Can<Closed> {
        Can { _marker: PhantomData }
    }
}

impl Can<Receiving> {
    /// Block on an interface able to receive; the stub transport always
    /// hands back the payload 100.
    pub fn blocking_receive(&mut self) -> (r: Result<u32, &str>)
        ensures
            r matches Ok(payload) && payload == 100,
    {
        Ok(100)
    }

    /// Close a receiving interface.
    pub fn close(self) -> Can<Closed> {
        Can { _marker: PhantomData }
    }
}

} // verus!
