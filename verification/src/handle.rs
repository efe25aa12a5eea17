//! Opaque handles: tokens that refer to what lives in the guest runtime.
//!
//! A handle is an address and nothing more. The host hands it back to the
//! runtime and never looks behind it; how long it stays good is for the
//! runtime to say.
use vstd::prelude::*;

verus! {

/// A handle of a guest value.
#[derive(Clone, Copy, Debug, PartialEq, Eq, Hash, Structural)]
pub struct Value {
    address: usize,
}

/// A handle of a constructor: a guest type that can be instantiated.
#[derive(Clone, Copy, Debug, PartialEq, Eq, Hash, Structural)]
pub struct Constructor {
    address: usize,
}

/// A handle of an executable: a guest value that can be called.
#[derive(Clone, Copy, Debug, PartialEq, Eq, Hash, Structural)]
pub struct Executable {
    address: usize,
}

impl View for Value {
    type V = usize;

    closed spec fn view(&self) -> usize {
        self.address
    }
}

impl View for Constructor {
    type V = usize;

    closed spec fn view(&self) -> usize {
        self.address
    }
}

impl View for Executable {
    type V = usize;

    closed spec fn view(&self) -> usize {
        self.address
    }
}

impl Value {
    /// The handle at an address that the runtime gave.
    pub fn from_address(address: usize) -> (value: Value)
        ensures
            value@ == address,
    {
        Value { address }
    }

    /// The address to hand back to the runtime.
    pub fn address(&self) -> (address: usize)
        ensures
            address == self@,
    {
        self.address
    }

    /// Handles of one address are one handle.
    pub proof fn lemma_same_address(self, other: Value)
        requires
            self@ == other@,
        ensures
            self == other,
    {
    }
}

impl Constructor {
    /// The handle at an address that the runtime gave.
    pub fn from_address(address: usize) -> (constructor: Constructor)
        ensures
            constructor@ == address,
    {
        Constructor { address }
    }

    /// The address to hand back to the runtime.
    pub fn address(&self) -> (address: usize)
        ensures
            address == self@,
    {
        self.address
    }

    /// The constructor that a value is, once the runtime has said that the
    /// value can be instantiated.
    pub closed spec fn of(value: Value) -> Constructor {
        Constructor { address: value.address }
    }

    /// Takes a value for the constructor that it is: the same address.
    pub fn from_value(value: Value) -> (constructor: Constructor)
        ensures
            constructor == Constructor::of(value),
            constructor@ == value@,
    {
        Constructor { address: value.address }
    }

    /// Handles of one address are one handle.
    pub proof fn lemma_same_address(self, other: Constructor)
        requires
            self@ == other@,
        ensures
            self == other,
    {
    }
}

impl Executable {
    /// The handle at an address that the runtime gave.
    pub fn from_address(address: usize) -> (executable: Executable)
        ensures
            executable@ == address,
    {
        Executable { address }
    }

    /// The address to hand back to the runtime.
    pub fn address(&self) -> (address: usize)
        ensures
            address == self@,
    {
        self.address
    }

    /// The executable that a value is, once the runtime has said that the
    /// value can be executed.
    pub closed spec fn of(value: Value) -> Executable {
        Executable { address: value.address }
    }

    /// Takes a value for the executable that it is: the same address.
    pub fn from_value(value: Value) -> (executable: Executable)
        ensures
            executable == Executable::of(value),
            executable@ == value@,
    {
        Executable { address: value.address }
    }

    /// Handles of one address are one handle.
    pub proof fn lemma_same_address(self, other: Executable)
        requires
            self@ == other@,
        ensures
            self == other,
    {
    }
}

} // verus!
