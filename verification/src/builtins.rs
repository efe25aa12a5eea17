//! Host types for two foreign types that every guest knows: the root of all
//! objects, and the string.
use vstd::prelude::*;
use crate::handle::Value;
use crate::marshal::{Accessor, Datum, Pass, Receive};

verus! {

/// A foreign object of no known class.
#[derive(Clone, Copy, Debug, PartialEq, Eq, Structural)]
pub struct Object {
    ptr: Value,
}

/// A foreign string.
#[derive(Clone, Copy, Debug, PartialEq, Eq, Structural)]
pub struct String {
    ptr: Value,
}

impl View for Object {
    type V = Value;

    closed spec fn view(&self) -> Value {
        self.ptr
    }
}

impl View for String {
    type V = Value;

    closed spec fn view(&self) -> Value {
        self.ptr
    }
}

impl Pass<Value> for Object {
    open spec fn passed(&self) -> Value {
        self@
    }

    fn pass(&self) -> Value {
        self.ptr
    }
}

impl Receive for Object {
    open spec fn accessor_spec() -> Option<Accessor> {
        None
    }

    fn accessor() -> Option<Accessor> {
        None
    }

    closed spec fn received(datum: Datum) -> Option<Object> {
        match datum {
            Datum::Handle(value) => Some(Object { ptr: value }),
            _ => None,
        }
    }

    fn from_polyglot_value(datum: Datum) -> Option<Object> {
        match datum {
            Datum::Handle(value) => Some(Object { ptr: value }),
            _ => None,
        }
    }

    proof fn law_receives_what_comes_through(datum: Datum) {
    }
}

impl Object {
    /// The object that is rebuilt from a handle passes that handle on.
    pub proof fn law_round_trip(value: Value)
        ensures
            Self::received(Datum::Handle(value)) is Some,
            Self::received(Datum::Handle(value))->Some_0.passed() == value,
    {
    }
}

impl Pass<Value> for String {
    open spec fn passed(&self) -> Value {
        self@
    }

    fn pass(&self) -> Value {
        self.ptr
    }
}

impl Receive for String {
    open spec fn accessor_spec() -> Option<Accessor> {
        None
    }

    fn accessor() -> Option<Accessor> {
        None
    }

    closed spec fn received(datum: Datum) -> Option<String> {
        match datum {
            Datum::Handle(value) => Some(String { ptr: value }),
            _ => None,
        }
    }

    fn from_polyglot_value(datum: Datum) -> Option<String> {
        match datum {
            Datum::Handle(value) => Some(String { ptr: value }),
            _ => None,
        }
    }

    proof fn law_receives_what_comes_through(datum: Datum) {
    }
}

impl String {
    /// The string that is rebuilt from a handle passes that handle on.
    pub proof fn law_round_trip(value: Value)
        ensures
            Self::received(Datum::Handle(value)) is Some,
            Self::received(Datum::Handle(value))->Some_0.passed() == value,
    {
    }
}

} // verus!
