//! The CAN interface of [`crate::can`] with closing factored into a
//! trait, so that every state that may be closed offers the one
//! operation through a single name.

use vstd::prelude::*;

use std::marker::PhantomData;

verus! {

/// A hypothetical CAN interface.
pub struct Can<State> {
    _marker: PhantomData<State>,
}

/// Open interface.
pub struct Open;

/// Interface in receiving mode.
pub struct Receiving;

/// Closed interface.
pub struct Closed;

/// States from which the interface can be closed down into `T`.
pub trait Close<T> {
    /// Close an open interface.
    fn close(self) -> T;
}

impl Can<Closed> {
    /// Create a CAN interface.
    pub fn new() -> Self {
        Can { _marker: PhantomData }
    }

    /// Open a closed interface.
    pub fn open(self) -> Can<Open> {
        Can { _marker: PhantomData }
    }
}

impl Can<Open> {
    /// Send a payload to an open interface; the stub transport accepts
    /// every payload.
    pub fn send(&mut self, payload: u32) -> (r: Result<(), &str>)
        ensures
            r is Ok,
    {
        let _ = payload;
        Ok(())
    }

    /// Set the interface in receiving mode.
    pub fn set_receive(self) -> Can<Receiving> {
        Can { _marker: PhantomData }
    }
}

impl Can<Receiving> {
    /// Block on an interface able to receive; the stub transport always
    /// hands back the payload 100.
    pub fn blocking_receive(&mut self) -> (r: Result<u32, &str>)
        ensures
            r matches Ok(payload) && payload == 100,
    {
        Ok(100)
    }
}

impl Close<Can<Closed>> for Can<Open> {
    /// Close an open interface.
    fn close(self) -> Can<Closed> {
        Can { _marker: PhantomData }
    }
}

impl Close<Can<Closed>> for Can<Receiving> {
    /// Close a receiving interface.
    fn close(self) -> Can<Closed> {
        Can { _marker: PhantomData }
    }
}

} // verus!
