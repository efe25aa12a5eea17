//! The capabilities that say what may cross the native boundary, and how.
//!
//! `Passable` marks the representations that a native call takes as they
//! are: the signed integers of 8, 16, 32 and 64 bits, and handles. `Pass`
//! is for a type that can produce such a representation of itself, and
//! `Receive` for one that can be rebuilt from what the runtime returns.
use vstd::prelude::*;
use vstd::string::*;
use crate::handle::Value;

verus! {

/// One argument of a native call, in the representation in which it crosses
/// the boundary.
#[derive(Clone, Copy, Debug, PartialEq, Eq, Structural)]
pub enum Word {
    I8(i8),
    I16(i16),
    I32(i32),
    I64(i64),
    Handle(Value),
}

/// The native accessors that take primitive data out of a guest value.
#[derive(Clone, Copy, Debug, PartialEq, Eq, Structural)]
pub enum Accessor {
    I8,
    I16,
    I32,
    I64,
    Boolean,
}

/// What a host value is rebuilt from: the handle itself, or the data that an
/// accessor took out of it.
#[derive(Clone, Copy, Debug, PartialEq, Eq, Structural)]
pub enum Datum {
    Handle(Value),
    I8(i8),
    I16(i16),
    I32(i32),
    I64(i64),
    Boolean(bool),
}

/// Whether `datum` is what one gets through `accessor`, where no accessor
/// stands for keeping the handle.
pub open spec fn comes_through(accessor: Option<Accessor>, datum: Datum) -> bool {
    match (accessor, datum) {
        (None, Datum::Handle(_)) => true,
        (Some(Accessor::I8), Datum::I8(_)) => true,
        (Some(Accessor::I16), Datum::I16(_)) => true,
        (Some(Accessor::I32), Datum::I32(_)) => true,
        (Some(Accessor::I64), Datum::I64(_)) => true,
        (Some(Accessor::Boolean), Datum::Boolean(_)) => true,
        _ => false,
    }
}

/// A representation that the native call boundary takes as it is.
pub trait Passable: Sized {
    /// The argument that this value makes.
    spec fn as_word(&self) -> Word;

    /// The argument that this value makes.
    fn word(&self) -> (word: Word)
        ensures
            word == self.as_word(),
    ;
}

/// A type that can produce the representation `T` of itself.
pub trait Pass<T: Passable> {
    /// The representation of this value.
    spec fn passed(&self) -> T;

    /// Produces the representation of this value.
    fn pass(&self) -> (out: T)
        ensures
            out == self.passed(),
    ;
}

/// A type that can be rebuilt from what the runtime returns.
///
/// `accessor` names the native accessor whose data the type is rebuilt from,
/// or none where the type keeps the handle. A value is rebuilt from exactly
/// the data that come through that accessor.
pub trait Receive: Sized {
    /// The accessor whose data the type is rebuilt from.
    spec fn accessor_spec() -> Option<Accessor>;

    /// The accessor whose data the type is rebuilt from, or none where it
    /// keeps the handle.
    fn accessor() -> (accessor: Option<Accessor>)
        ensures
            accessor == Self::accessor_spec(),
    ;

    /// The value that `datum` is rebuilt to.
    spec fn received(datum: Datum) -> Option<Self>;

    /// Rebuilds a value from what the runtime returned, or nothing where
    /// the datum is not of the kind that the type is rebuilt from.
    fn from_polyglot_value(datum: Datum) -> (value: Option<Self>)
        ensures
            value == Self::received(datum),
    ;

    /// A value is rebuilt from the data that come through the accessor, and
    /// from no other.
    proof fn law_receives_what_comes_through(datum: Datum)
        ensures
            Self::received(datum) is Some <==> comes_through(Self::accessor_spec(), datum),
    ;
}

impl Passable for i8 {
    open spec fn as_word(&self) -> Word {
        Word::I8(*self)
    }

    fn word(&self) -> Word {
        Word::I8(*self)
    }
}

impl Passable for i16 {
    open spec fn as_word(&self) -> Word {
        Word::I16(*self)
    }

    fn word(&self) -> Word {
        Word::I16(*self)
    }
}

impl Passable for i32 {
    open spec fn as_word(&self) -> Word {
        Word::I32(*self)
    }

    fn word(&self) -> Word {
        Word::I32(*self)
    }
}

impl Passable for i64 {
    open spec fn as_word(&self) -> Word {
        Word::I64(*self)
    }

    fn word(&self) -> Word {
        Word::I64(*self)
    }
}

impl Passable for Value {
    open spec fn as_word(&self) -> Word {
        Word::Handle(*self)
    }

    fn word(&self) -> Word {
        Word::Handle(*self)
    }
}

impl Pass<i8> for i8 {
    open spec fn passed(&self) -> i8 {
        *self
    }

    fn pass(&self) -> i8 {
        *self
    }
}

impl Pass<i16> for i16 {
    open spec fn passed(&self) -> i16 {
        *self
    }

    fn pass(&self) -> i16 {
        *self
    }
}

impl Pass<i32> for i32 {
    open spec fn passed(&self) -> i32 {
        *self
    }

    fn pass(&self) -> i32 {
        *self
    }
}

impl Pass<i64> for i64 {
    open spec fn passed(&self) -> i64 {
        *self
    }

    fn pass(&self) -> i64 {
        *self
    }
}

impl Pass<Value> for Value {
    open spec fn passed(&self) -> Value {
        *self
    }

    fn pass(&self) -> Value {
        *self
    }
}

impl Receive for i8 {
    open spec fn accessor_spec() -> Option<Accessor> {
        Some(Accessor::I8)
    }

    fn accessor() -> Option<Accessor> {
        Some(Accessor::I8)
    }

    open spec fn received(datum: Datum) -> Option<i8> {
        match datum {
            Datum::I8(value) => Some(value),
            _ => None,
        }
    }

    fn from_polyglot_value(datum: Datum) -> Option<i8> {
        match datum {
            Datum::I8(value) => Some(value),
            _ => None,
        }
    }

    proof fn law_receives_what_comes_through(datum: Datum) {
    }
}

impl Receive for i16 {
    open spec fn accessor_spec() -> Option<Accessor> {
        Some(Accessor::I16)
    }

    fn accessor() -> Option<Accessor> {
        Some(Accessor::I16)
    }

    open spec fn received(datum: Datum) -> Option<i16> {
        match datum {
            Datum::I16(value) => Some(value),
            _ => None,
        }
    }

    fn from_polyglot_value(datum: Datum) -> Option<i16> {
        match datum {
            Datum::I16(value) => Some(value),
            _ => None,
        }
    }

    proof fn law_receives_what_comes_through(datum: Datum) {
    }
}

impl Receive for i32 {
    open spec fn accessor_spec() -> Option<Accessor> {
        Some(Accessor::I32)
    }

    fn accessor() -> Option<Accessor> {
        Some(Accessor::I32)
    }

    open spec fn received(datum: Datum) -> Option<i32> {
        match datum {
            Datum::I32(value) => Some(value),
            _ => None,
        }
    }

    fn from_polyglot_value(datum: Datum) -> Option<i32> {
        match datum {
            Datum::I32(value) => Some(value),
            _ => None,
        }
    }

    proof fn law_receives_what_comes_through(datum: Datum) {
    }
}

impl Receive for i64 {
    open spec fn accessor_spec() -> Option<Accessor> {
        Some(Accessor::I64)
    }

    fn accessor() -> Option<Accessor> {
        Some(Accessor::I64)
    }

    open spec fn received(datum: Datum) -> Option<i64> {
        match datum {
            Datum::I64(value) => Some(value),
            _ => None,
        }
    }

    fn from_polyglot_value(datum: Datum) -> Option<i64> {
        match datum {
            Datum::I64(value) => Some(value),
            _ => None,
        }
    }

    proof fn law_receives_what_comes_through(datum: Datum) {
    }
}

impl Receive for bool {
    open spec fn accessor_spec() -> Option<Accessor> {
        Some(Accessor::Boolean)
    }

    fn accessor() -> Option<Accessor> {
        Some(Accessor::Boolean)
    }

    open spec fn received(datum: Datum) -> Option<bool> {
        match datum {
            Datum::Boolean(value) => Some(value),
            _ => None,
        }
    }

    fn from_polyglot_value(datum: Datum) -> Option<bool> {
        match datum {
            Datum::Boolean(value) => Some(value),
            _ => None,
        }
    }

    proof fn law_receives_what_comes_through(datum: Datum) {
    }
}

/// The representation in which `value` joins the arguments of a native
/// call: what its `Pass` produces.
pub fn expect_variadic<U: Passable, T: Pass<U>>(value: T) -> (out: U)
    ensures
        out == value.passed(),
{
    value.pass()
}

/// Puts `value` behind the arguments of a native call, in the
/// representation that its `Pass` produces.
pub fn pass_argument<U: Passable, T: Pass<U>>(arguments: &mut Vec<Word>, value: T)
    ensures
        final(arguments)@ == old(arguments)@.push(value.passed().as_word()),
{
    let passed = expect_variadic(value);
    arguments.push(passed.word());
}

/// The bytes of a name as the runtime takes them: followed by one zero
/// byte, and with no zero byte before it.
pub open spec fn c_string(bytes: Seq<u8>) -> Option<Seq<u8>> {
    if bytes.contains(0u8) {
        None
    } else {
        Some(bytes.push(0u8))
    }
}

/// The bytes of `string` in UTF-8 with a zero byte behind them, or nothing
/// where the string holds a zero byte itself.
pub fn make_cstring(string: &str) -> (out: Option<Vec<u8>>)
    ensures
        match out {
            Some(bytes) => c_string(string.spec_bytes()) == Some(bytes@),
            None => c_string(string.spec_bytes()) is None,
        },
{
    let mut bytes = string.as_bytes_vec();
    let mut i: usize = 0;
    while i < bytes.len()
        invariant
            i <= bytes.len(),
            bytes@ == string.spec_bytes(),
            forall|k: int| 0 <= k < i ==> bytes@[k] != 0u8,
        decreases bytes.len() - i,
    {
        if bytes[i] == 0 {
            return None;
        }
        i = i + 1;
    }
    bytes.push(0);
    Some(bytes)
}

/// The bytes of `name` as the lookup of a type hands them to the runtime:
/// those that `make_cstring` gives.
pub fn make_cstr(name: &str) -> (out: Option<Vec<u8>>)
    ensures
        match out {
            Some(bytes) => c_string(name.spec_bytes()) == Some(bytes@),
            None => c_string(name.spec_bytes()) is None,
        },
{
    make_cstring(name)
}

} // verus!
