//! The native invocation bridge, as the requests that each operation makes
//! of the runtime and what it does with the replies.
//!
//! Nothing here calls the runtime. An operation begins with a `Step`: it is
//! done, it has failed for good, or it asks for one native call and says in
//! which state it waits for the reply. Whoever holds the runtime makes the
//! call and hands the reply to `resume`, which gives the next step. Every
//! call is made once and waited for; nothing is tried again.
use vstd::prelude::*;
use vstd::string::*;
use crate::handle::{Constructor, Executable, Value};
use crate::marshal::{c_string, make_cstr, make_cstring, Accessor, Datum, Receive, Word};

verus! {

/// The bytes that name the only charset in which strings cross the
/// boundary: `UTF-8` and a zero byte.
pub open spec fn charset_tag() -> Seq<u8> {
    seq![85u8, 84u8, 70u8, 45u8, 56u8, 0u8]
}

/// One call of a native entry point.
#[derive(Clone, Debug, PartialEq, Eq)]
pub enum Request {
    /// `polyglot_java_type(name)`
    JavaType { name: Vec<u8> },
    /// `polyglot_is_null(value)`
    IsNull(Value),
    /// `polyglot_can_instantiate(value)`
    CanInstantiate(Value),
    /// `polyglot_can_execute(value)`
    CanExecute(Value),
    /// `polyglot_is_string(value)`
    IsString(Value),
    /// `polyglot_is_boolean(value)` for a boolean, `polyglot_fits_in_*(value)`
    /// for an integer
    Check(Accessor, Value),
    /// `polyglot_as_boolean(value)` for a boolean, `polyglot_as_*(value)` for
    /// an integer
    Extract(Accessor, Value),
    /// `polyglot_get_string_size(value)`
    GetStringSize(Value),
    /// `polyglot_from_string_n(bytes, length, charset)`
    FromString { bytes: Vec<u8>, length: u64, charset: Vec<u8> },
    /// `polyglot_import(name)`
    Import { name: Vec<u8> },
    /// `polyglot_export(name, value)`
    Export { name: Vec<u8>, value: Value },
    /// `polyglot_get_array_size(array)`
    GetArraySize(Value),
    /// `polyglot_get_array_element(array, index)`, with the index as the
    /// caller gave it
    GetArrayElement(Value, u64),
    /// `polyglot_new_instance(constructor, arguments...)`
    NewInstance { constructor: Constructor, arguments: Vec<Word> },
    /// `polyglot_invoke(receiver, method, arguments...)`
    Invoke { receiver: Value, method: Vec<u8>, arguments: Vec<Word> },
    /// A call of the executable itself, as a function of no arguments.
    ExecuteNullary(Executable),
    /// A call of the executable itself, as a function of a variable number
    /// of arguments.
    Execute { executable: Executable, arguments: Vec<Word> },
}

/// What a native call returned.
#[derive(Clone, Copy, Debug, PartialEq, Eq, Structural)]
pub enum Reply {
    Handle(Value),
    Flag(bool),
    Size(u64),
    I8(i8),
    I16(i16),
    I32(i32),
    I64(i64),
    Nothing,
}

/// Why an operation failed for good.
#[derive(Clone, Copy, Debug, PartialEq, Eq, Structural)]
pub enum Failure {
    /// The name does not resolve, or what it names cannot be instantiated.
    NotAType,
    /// Nothing was exported under the name.
    ImportFailed,
    /// The value is no string.
    NotAString,
    /// The value cannot be executed.
    NotExecutable,
    /// The value is no boolean.
    NotABoolean,
    /// The value is not of the primitive kind that was expected.
    KindMismatch,
    /// A name holds a zero byte and cannot be handed to the runtime.
    NulInName,
    /// The reply is not one that the pending call can give.
    UnexpectedReply,
}

/// The state in which an operation waits for a reply.
#[derive(Clone, Copy, Debug, PartialEq, Eq, Structural)]
pub enum Pending {
    /// A type was looked up by name.
    TypeLookup,
    /// The type that was found is tested for null.
    TypeNullCheck(Value),
    /// The type that was found is tested for being instantiable.
    TypeInstantiableCheck(Value),
    /// A binding was imported by name.
    ImportLookup,
    /// What was imported is tested for null.
    ImportNullCheck(Value),
    /// A call that returns nothing was made.
    Completion,
    /// A call that returns a handle was made.
    Handle,
    /// A call that returns a flag was made.
    Flag,
    /// The value is tested for being a string before its size is asked for.
    StringCheck(Value),
    /// The size of a string was asked for.
    Size,
    /// The value is tested for being executable.
    ExecutableCheck(Value),
    /// The value is tested for its kind before data are taken out of it;
    /// `failure` is what a wrong kind comes to.
    KindCheck { accessor: Accessor, value: Value, failure: Failure },
    /// Data are taken out of a value.
    Extraction(Accessor),
    /// The size of an array was asked for, to read the element at `index`.
    ArraySize { array: Value, index: u64, accessor: Option<Accessor>, checked: bool },
    /// An element of an array was asked for.
    ArrayElement { accessor: Option<Accessor>, checked: bool },
}

/// What an operation came to.
#[derive(Clone, Copy, Debug, PartialEq, Eq, Structural)]
pub enum Outcome {
    Constructor(Constructor),
    Value(Value),
    Executable(Executable),
    Size(u64),
    Flag(bool),
    /// What a host value is to be rebuilt from.
    Datum(Datum),
    /// The index lies outside the array.
    Absent,
    Nothing,
}

/// Where an operation stands.
#[derive(Clone, Debug, PartialEq, Eq)]
pub enum Step {
    /// The call to make, and the state in which its reply is awaited.
    Ask(Pending, Request),
    Done(Outcome),
    Fatal(Failure),
}

/// The data that the accessor's call returned, if the reply is of its kind.
pub open spec fn datum_of(accessor: Accessor, reply: Reply) -> Option<Datum> {
    match (accessor, reply) {
        (Accessor::I8, Reply::I8(value)) => Some(Datum::I8(value)),
        (Accessor::I16, Reply::I16(value)) => Some(Datum::I16(value)),
        (Accessor::I32, Reply::I32(value)) => Some(Datum::I32(value)),
        (Accessor::I64, Reply::I64(value)) => Some(Datum::I64(value)),
        (Accessor::Boolean, Reply::Flag(value)) => Some(Datum::Boolean(value)),
        _ => None,
    }
}

/// How a value is rebuilt from the handle `value`: the handle is the datum
/// where there is no accessor; elsewhere the data are taken out through the
/// accessor, after a test of the value's kind where `checked` asks for it.
pub open spec fn reception(accessor: Option<Accessor>, checked: bool, value: Value) -> Step {
    match accessor {
        None => Step::Done(Outcome::Datum(Datum::Handle(value))),
        Some(accessor) => if checked {
            Step::Ask(
                Pending::KindCheck { accessor, value, failure: Failure::KindMismatch },
                Request::Check(accessor, value),
            )
        } else {
            Step::Ask(Pending::Extraction(accessor), Request::Extract(accessor, value))
        },
    }
}

/// The step that follows a reply.
///
/// A type is a constructor once it was found to be neither null nor
/// uninstantiable, in that order; an import is a value once it was found not
/// to be null; the size of a string is asked for once the value was found to
/// be a string; data are taken out of a value once its kind was found right.
/// An element is asked for only where the index lies below the size that the
/// array reported, and at that very index. A reply that the pending call
/// cannot give ends the operation.
pub open spec fn next_step(pending: Pending, reply: Reply) -> Step {
    match (pending, reply) {
        (Pending::TypeLookup, Reply::Handle(value)) => Step::Ask(
            Pending::TypeNullCheck(value),
            Request::IsNull(value),
        ),
        (Pending::TypeNullCheck(value), Reply::Flag(null)) => if null {
            Step::Fatal(Failure::NotAType)
        } else {
            Step::Ask(Pending::TypeInstantiableCheck(value), Request::CanInstantiate(value))
        },
        (Pending::TypeInstantiableCheck(value), Reply::Flag(instantiable)) => if instantiable {
            Step::Done(Outcome::Constructor(Constructor::of(value)))
        } else {
            Step::Fatal(Failure::NotAType)
        },
        (Pending::ImportLookup, Reply::Handle(value)) => Step::Ask(
            Pending::ImportNullCheck(value),
            Request::IsNull(value),
        ),
        (Pending::ImportNullCheck(value), Reply::Flag(null)) => if null {
            Step::Fatal(Failure::ImportFailed)
        } else {
            Step::Done(Outcome::Value(value))
        },
        (Pending::Completion, Reply::Nothing) => Step::Done(Outcome::Nothing),
        (Pending::Handle, Reply::Handle(value)) => Step::Done(Outcome::Value(value)),
        (Pending::Flag, Reply::Flag(flag)) => Step::Done(Outcome::Flag(flag)),
        (Pending::StringCheck(value), Reply::Flag(string)) => if string {
            Step::Ask(Pending::Size, Request::GetStringSize(value))
        } else {
            Step::Fatal(Failure::NotAString)
        },
        (Pending::Size, Reply::Size(size)) => Step::Done(Outcome::Size(size)),
        (Pending::ExecutableCheck(value), Reply::Flag(executable)) => if executable {
            Step::Done(Outcome::Executable(Executable::of(value)))
        } else {
            Step::Fatal(Failure::NotExecutable)
        },
        (Pending::KindCheck { accessor, value, failure }, Reply::Flag(fits)) => if fits {
            Step::Ask(Pending::Extraction(accessor), Request::Extract(accessor, value))
        } else {
            Step::Fatal(failure)
        },
        (Pending::Extraction(accessor), reply) => match datum_of(accessor, reply) {
            Some(datum) => Step::Done(Outcome::Datum(datum)),
            None => Step::Fatal(Failure::UnexpectedReply),
        },
        (Pending::ArraySize { array, index, accessor, checked }, Reply::Size(size)) => if index
            >= size {
            Step::Done(Outcome::Absent)
        } else {
            Step::Ask(
                Pending::ArrayElement { accessor, checked },
                Request::GetArrayElement(array, index),
            )
        },
        (Pending::ArrayElement { accessor, checked }, Reply::Handle(element)) => reception(
            accessor,
            checked,
            element,
        ),
        _ => Step::Fatal(Failure::UnexpectedReply),
    }
}

/// Begins to rebuild a value from the handle `value`.
pub fn receive(accessor: Option<Accessor>, checked: bool, value: Value) -> (step: Step)
    ensures
        step == reception(accessor, checked, value),
{
    match accessor {
        None => Step::Done(Outcome::Datum(Datum::Handle(value))),
        Some(accessor) => {
            if checked {
                Step::Ask(
                    Pending::KindCheck { accessor, value, failure: Failure::KindMismatch },
                    Request::Check(accessor, value),
                )
            } else {
                Step::Ask(Pending::Extraction(accessor), Request::Extract(accessor, value))
            }
        },
    }
}

/// Takes the reply to the pending call and gives the step that follows.
pub fn resume(pending: Pending, reply: Reply) -> (step: Step)
    ensures
        step == next_step(pending, reply),
{
    match (pending, reply) {
        (Pending::TypeLookup, Reply::Handle(value)) => Step::Ask(
            Pending::TypeNullCheck(value),
            Request::IsNull(value),
        ),
        (Pending::TypeNullCheck(value), Reply::Flag(null)) => {
            if null {
                Step::Fatal(Failure::NotAType)
            } else {
                Step::Ask(Pending::TypeInstantiableCheck(value), Request::CanInstantiate(value))
            }
        },
        (Pending::TypeInstantiableCheck(value), Reply::Flag(instantiable)) => {
            if instantiable {
                Step::Done(Outcome::Constructor(Constructor::from_value(value)))
            } else {
                Step::Fatal(Failure::NotAType)
            }
        },
        (Pending::ImportLookup, Reply::Handle(value)) => Step::Ask(
            Pending::ImportNullCheck(value),
            Request::IsNull(value),
        ),
        (Pending::ImportNullCheck(value), Reply::Flag(null)) => {
            if null {
                Step::Fatal(Failure::ImportFailed)
            } else {
                Step::Done(Outcome::Value(value))
            }
        },
        (Pending::Completion, Reply::Nothing) => Step::Done(Outcome::Nothing),
        (Pending::Handle, Reply::Handle(value)) => Step::Done(Outcome::Value(value)),
        (Pending::Flag, Reply::Flag(flag)) => Step::Done(Outcome::Flag(flag)),
        (Pending::StringCheck(value), Reply::Flag(string)) => {
            if string {
                Step::Ask(Pending::Size, Request::GetStringSize(value))
            } else {
                Step::Fatal(Failure::NotAString)
            }
        },
        (Pending::Size, Reply::Size(size)) => Step::Done(Outcome::Size(size)),
        (Pending::ExecutableCheck(value), Reply::Flag(executable)) => {
            if executable {
                Step::Done(Outcome::Executable(Executable::from_value(value)))
            } else {
                Step::Fatal(Failure::NotExecutable)
            }
        },
        (Pending::KindCheck { accessor, value, failure }, Reply::Flag(fits)) => {
            if fits {
                Step::Ask(Pending::Extraction(accessor), Request::Extract(accessor, value))
            } else {
                Step::Fatal(failure)
            }
        },
        (Pending::Extraction(accessor), reply) => {
            let datum = match (accessor, reply) {
                (Accessor::I8, Reply::I8(value)) => Some(Datum::I8(value)),
                (Accessor::I16, Reply::I16(value)) => Some(Datum::I16(value)),
                (Accessor::I32, Reply::I32(value)) => Some(Datum::I32(value)),
                (Accessor::I64, Reply::I64(value)) => Some(Datum::I64(value)),
                (Accessor::Boolean, Reply::Flag(value)) => Some(Datum::Boolean(value)),
                _ => None,
            };
            match datum {
                Some(datum) => Step::Done(Outcome::Datum(datum)),
                None => Step::Fatal(Failure::UnexpectedReply),
            }
        },
        (Pending::ArraySize { array, index, accessor, checked }, Reply::Size(size)) => {
            if index >= size {
                Step::Done(Outcome::Absent)
            } else {
                Step::Ask(
                    Pending::ArrayElement { accessor, checked },
                    Request::GetArrayElement(array, index),
                )
            }
        },
        (Pending::ArrayElement { accessor, checked }, Reply::Handle(element)) => receive(
            accessor,
            checked,
            element,
        ),
        _ => Step::Fatal(Failure::UnexpectedReply),
    }
}

/// Where an operation stands once the replies of `replies` were handed to
/// it in their order: replies behind its end are not looked at.
pub open spec fn run(step: Step, replies: Seq<Reply>) -> Step
    decreases replies.len(),
{
    match step {
        Step::Ask(pending, _) => if replies.len() == 0 {
            step
        } else {
            run(next_step(pending, replies[0]), replies.drop_first())
        },
        _ => step,
    }
}

/// Begins the lookup of a foreign type by its qualified name.
///
/// The lookup asks for the type, then whether it is null, then whether it
/// can be instantiated; it ends with the constructor, or with `NotAType`
/// where the name does not resolve or names nothing that can be
/// instantiated.
pub fn java_type(name: &str) -> (step: Step)
    ensures
        match c_string(name.spec_bytes()) {
            Some(bytes) => step matches Step::Ask(Pending::TypeLookup, Request::JavaType { name })
                && name@ == bytes,
            None => step == Step::Fatal(Failure::NulInName),
        },
{
    match make_cstr(name) {
        Some(name) => Step::Ask(Pending::TypeLookup, Request::JavaType { name }),
        None => Step::Fatal(Failure::NulInName),
    }
}

/// Begins the import of the binding that was exported under `name`. It
/// ends with the value, or with `ImportFailed` where there is none.
pub fn import(name: &str) -> (step: Step)
    ensures
        match c_string(name.spec_bytes()) {
            Some(bytes) => step matches Step::Ask(Pending::ImportLookup, Request::Import { name })
                && name@ == bytes,
            None => step == Step::Fatal(Failure::NulInName),
        },
{
    match make_cstring(name) {
        Some(name) => Step::Ask(Pending::ImportLookup, Request::Import { name }),
        None => Step::Fatal(Failure::NulInName),
    }
}

/// Begins the export of `value` under `name`.
pub fn export(name: &str, value: Value) -> (step: Step)
    ensures
        match c_string(name.spec_bytes()) {
            Some(bytes) => step matches Step::Ask(
                Pending::Completion,
                Request::Export { name, value: exported },
            ) && name@ == bytes && exported == value,
            None => step == Step::Fatal(Failure::NulInName),
        },
{
    match make_cstring(name) {
        Some(name) => Step::Ask(Pending::Completion, Request::Export { name, value }),
        None => Step::Fatal(Failure::NulInName),
    }
}

/// Begins to make a guest string of a host string: its bytes in UTF-8,
/// their number, and the tag of that charset.
pub fn from_string(text: &str) -> (step: Step)
    ensures
        step matches Step::Ask(Pending::Handle, Request::FromString { bytes, length, charset })
            && bytes@ == text.spec_bytes() && length == text.spec_bytes().len() && charset@
            == charset_tag(),
{
    let bytes = text.as_bytes_vec();
    let length = bytes.len() as u64;
    let mut charset: Vec<u8> = Vec::new();
    charset.push(85);
    charset.push(84);
    charset.push(70);
    charset.push(45);
    charset.push(56);
    charset.push(0);
    assert(charset@ =~= charset_tag());
    Step::Ask(Pending::Handle, Request::FromString { bytes, length, charset })
}

/// Begins to ask whether `value` is a string.
pub fn is_string(value: Value) -> (step: Step)
    ensures
        step == Step::Ask(Pending::Flag, Request::IsString(value)),
{
    Step::Ask(Pending::Flag, Request::IsString(value))
}

/// Begins to ask for the size of the string `value`. It ends with the
/// size, or with `NotAString` where the value is no string.
pub fn get_string_size(value: Value) -> (step: Step)
    ensures
        step == Step::Ask(Pending::StringCheck(value), Request::IsString(value)),
{
    Step::Ask(Pending::StringCheck(value), Request::IsString(value))
}

/// Begins to ask whether `value` is null.
pub fn is_null(value: Value) -> (step: Step)
    ensures
        step == Step::Ask(Pending::Flag, Request::IsNull(value)),
{
    Step::Ask(Pending::Flag, Request::IsNull(value))
}

/// Begins to take `value` for an executable. It ends with the executable,
/// or with `NotExecutable` where the value cannot be executed.
pub fn as_executable(value: Value) -> (step: Step)
    ensures
        step == Step::Ask(Pending::ExecutableCheck(value), Request::CanExecute(value)),
{
    Step::Ask(Pending::ExecutableCheck(value), Request::CanExecute(value))
}

/// Begins to take the boolean out of `value`. It ends with the boolean, or
/// with `NotABoolean` where the value is none.
pub fn as_boolean(value: Value) -> (step: Step)
    ensures
        step == Step::Ask(
            Pending::KindCheck {
                accessor: Accessor::Boolean,
                value,
                failure: Failure::NotABoolean,
            },
            Request::Check(Accessor::Boolean, value),
        ),
{
    Step::Ask(
        Pending::KindCheck { accessor: Accessor::Boolean, value, failure: Failure::NotABoolean },
        Request::Check(Accessor::Boolean, value),
    )
}

/// Begins the construction of an instance: the constructor and the
/// arguments, as they are and in their order.
pub fn new_instance(constructor: Constructor, arguments: Vec<Word>) -> (step: Step)
    ensures
        step == Step::Ask(Pending::Handle, Request::NewInstance { constructor, arguments }),
{
    Step::Ask(Pending::Handle, Request::NewInstance { constructor, arguments })
}

/// Begins the invocation of the foreign method `method` on `receiver`, with
/// the arguments as they are and in their order.
pub fn invoke_method(receiver: Value, method: &str, arguments: Vec<Word>) -> (step: Step)
    ensures
        match c_string(method.spec_bytes()) {
            Some(bytes) => step matches Step::Ask(
                Pending::Handle,
                Request::Invoke { receiver: invoked, method: name, arguments: handed },
            ) && invoked == receiver && name@ == bytes && handed == arguments,
            None => step == Step::Fatal(Failure::NulInName),
        },
{
    match make_cstring(method) {
        Some(name) => Step::Ask(
            Pending::Handle,
            Request::Invoke { receiver, method: name, arguments },
        ),
        None => Step::Fatal(Failure::NulInName),
    }
}

/// Begins a call of the executable itself: as a function of no arguments
/// where there are none, and elsewhere as a function of a variable number
/// of arguments, handed on as they are and in their order.
pub fn execute(executable: Executable, arguments: Vec<Word>) -> (step: Step)
    ensures
        arguments.len() == 0 ==> step == Step::Ask(
            Pending::Handle,
            Request::ExecuteNullary(executable),
        ),
        arguments.len() > 0 ==> step == Step::Ask(
            Pending::Handle,
            Request::Execute { executable, arguments },
        ),
{
    if arguments.len() == 0 {
        Step::Ask(Pending::Handle, Request::ExecuteNullary(executable))
    } else {
        Step::Ask(Pending::Handle, Request::Execute { executable, arguments })
    }
}

/// The first step of reading the element at `index` of `array`: the array
/// is asked for its size.
pub open spec fn reading(
    array: Value,
    index: u64,
    accessor: Option<Accessor>,
    checked: bool,
) -> Step {
    Step::Ask(Pending::ArraySize { array, index, accessor, checked }, Request::GetArraySize(array))
}

/// Begins to read the element at `index` of `array`, to rebuild from it a
/// value that comes through `accessor`.
///
/// The array is asked for its size. Where the index is not below it the
/// reading ends with `Absent` and no element is asked for; elsewhere the
/// element is asked for at the index itself.
pub fn read_element(array: Value, index: u64, accessor: Option<Accessor>, checked: bool) -> (step:
    Step)
    ensures
        step == reading(array, index, accessor, checked),
        forall|size: u64|
            index >= size ==> #[trigger] run(step, seq![Reply::Size(size)]) == Step::Done(
                Outcome::Absent,
            ),
        forall|size: u64|
            index < size ==> #[trigger] run(step, seq![Reply::Size(size)]) == Step::Ask(
                Pending::ArrayElement { accessor, checked },
                Request::GetArrayElement(array, index),
            ),
{
    proof {
        assert forall|size: u64| true implies #[trigger] run(
            reading(array, index, accessor, checked),
            seq![Reply::Size(size)],
        ) == next_step(
            Pending::ArraySize { array, index, accessor, checked },
            Reply::Size(size),
        ) by {
            lemma_run_one(
                Pending::ArraySize { array, index, accessor, checked },
                Request::GetArraySize(array),
                Reply::Size(size),
            );
        }
    }
    Step::Ask(Pending::ArraySize { array, index, accessor, checked }, Request::GetArraySize(array))
}

/// Whenever the reading of an array asks for an element, it asks the array
/// that is read for the element at the index that is read, whatever the
/// size is that the array reported.
pub proof fn law_element_is_asked_at_the_index(
    array: Value,
    index: u64,
    accessor: Option<Accessor>,
    checked: bool,
    reply: Reply,
)
    ensures
        next_step(Pending::ArraySize { array, index, accessor, checked }, reply) is Ask ==> {
            &&& next_step(Pending::ArraySize { array, index, accessor, checked }, reply)->Ask_1
                == Request::GetArrayElement(array, index)
            &&& reply is Size
            &&& index < reply->Size_0
        },
{
}

/// Rebuilds a host value from what an operation came to: from the datum
/// where it came to one that comes through the type's accessor, and nothing
/// elsewhere.
pub fn rebuild<T: Receive>(outcome: Outcome) -> (value: Option<T>)
    ensures
        value == match outcome {
            Outcome::Datum(datum) => T::received(datum),
            _ => None,
        },
{
    match outcome {
        Outcome::Datum(datum) => T::from_polyglot_value(datum),
        _ => None,
    }
}

/// An operation that waits takes the first reply and goes on with the
/// others.
pub proof fn lemma_run_first(pending: Pending, request: Request, replies: Seq<Reply>)
    requires
        replies.len() >= 1,
    ensures
        run(Step::Ask(pending, request), replies) == run(
            next_step(pending, replies[0]),
            replies.drop_first(),
        ),
{
}

/// An operation that has ended, or that gets no reply, stays where it is.
pub proof fn lemma_run_stays(step: Step, replies: Seq<Reply>)
    requires
        !(step is Ask) || replies.len() == 0,
    ensures
        run(step, replies) == step,
{
}

/// Where an operation stands after one reply.
pub proof fn lemma_run_one(pending: Pending, request: Request, reply: Reply)
    ensures
        run(Step::Ask(pending, request), seq![reply]) == next_step(pending, reply),
{
    lemma_run_first(pending, request, seq![reply]);
    assert(seq![reply].drop_first() =~= Seq::<Reply>::empty());
    lemma_run_stays(next_step(pending, reply), Seq::empty());
}

/// Where an operation stands after two replies, if the first did not end
/// it.
pub proof fn lemma_run_two(pending: Pending, request: Request, first: Reply, second: Reply)
    requires
        next_step(pending, first) is Ask,
    ensures
        run(Step::Ask(pending, request), seq![first, second]) == next_step(
            next_step(pending, first)->Ask_0,
            second,
        ),
{
    lemma_run_first(pending, request, seq![first, second]);
    assert(seq![first, second].drop_first() =~= seq![second]);
    lemma_run_one(next_step(pending, first)->Ask_0, next_step(pending, first)->Ask_1, second);
}

/// The lookup of a type asks for the type, then whether it is null, and
/// only where it is not, whether it can be instantiated. It ends with the
/// constructor exactly where the type is neither null nor uninstantiable, and
/// with `NotAType` elsewhere.
pub proof fn law_type_lookup(request: Request, found: Value, null: bool, instantiable: bool)
    ensures
        run(Step::Ask(Pending::TypeLookup, request), seq![Reply::Handle(found)]) == Step::Ask(
            Pending::TypeNullCheck(found),
            Request::IsNull(found),
        ),
        run(Step::Ask(Pending::TypeLookup, request), seq![Reply::Handle(found), Reply::Flag(true)])
            == Step::Fatal(Failure::NotAType),
        run(Step::Ask(Pending::TypeLookup, request), seq![Reply::Handle(found), Reply::Flag(false)])
            == Step::Ask(
            Pending::TypeInstantiableCheck(found),
            Request::CanInstantiate(found),
        ),
        run(
            Step::Ask(Pending::TypeLookup, request),
            seq![Reply::Handle(found), Reply::Flag(null), Reply::Flag(instantiable)],
        ) == if !null && instantiable {
            Step::Done(Outcome::Constructor(Constructor::of(found)))
        } else {
            Step::Fatal(Failure::NotAType)
        },
{
    let start = Step::Ask(Pending::TypeLookup, request);
    lemma_run_one(Pending::TypeLookup, request, Reply::Handle(found));
    lemma_run_two(Pending::TypeLookup, request, Reply::Handle(found), Reply::Flag(true));
    lemma_run_two(Pending::TypeLookup, request, Reply::Handle(found), Reply::Flag(false));
    let replies = seq![Reply::Handle(found), Reply::Flag(null), Reply::Flag(instantiable)];
    lemma_run_first(Pending::TypeLookup, request, replies);
    assert(replies.drop_first() =~= seq![Reply::Flag(null), Reply::Flag(instantiable)]);
    if null {
        lemma_run_first(
            Pending::TypeNullCheck(found),
            Request::IsNull(found),
            replies.drop_first(),
        );
        lemma_run_stays(Step::Fatal(Failure::NotAType), replies.drop_first().drop_first());
    } else {
        lemma_run_two(
            Pending::TypeNullCheck(found),
            Request::IsNull(found),
            Reply::Flag(null),
            Reply::Flag(instantiable),
        );
    }
}

/// An import asks for the binding, then whether it is null. It ends with
/// the value exactly where it is not null, and with `ImportFailed`
/// elsewhere.
pub proof fn law_import(request: Request, found: Value, null: bool)
    ensures
        run(Step::Ask(Pending::ImportLookup, request), seq![Reply::Handle(found)]) == Step::Ask(
            Pending::ImportNullCheck(found),
            Request::IsNull(found),
        ),
        run(
            Step::Ask(Pending::ImportLookup, request),
            seq![Reply::Handle(found), Reply::Flag(null)],
        )
            == if null {
            Step::Fatal(Failure::ImportFailed)
        } else {
            Step::Done(Outcome::Value(found))
        },
{
    lemma_run_one(Pending::ImportLookup, request, Reply::Handle(found));
    lemma_run_two(Pending::ImportLookup, request, Reply::Handle(found), Reply::Flag(null));
}

/// The size of a string is asked for only of a string: the operation ends
/// with the size that the runtime reports where the value is a string, and
/// with `NotAString` elsewhere.
pub proof fn law_string_size(value: Value, string: bool, size: u64)
    ensures
        run(
            Step::Ask(Pending::StringCheck(value), Request::IsString(value)),
            seq![Reply::Flag(false)],
        ) == Step::Fatal(Failure::NotAString),
        run(
            Step::Ask(Pending::StringCheck(value), Request::IsString(value)),
            seq![Reply::Flag(true)],
        ) == Step::Ask(Pending::Size, Request::GetStringSize(value)),
        run(
            Step::Ask(Pending::StringCheck(value), Request::IsString(value)),
            seq![Reply::Flag(true), Reply::Size(size)],
        ) == Step::Done(Outcome::Size(size)),
{
    let request = Request::IsString(value);
    lemma_run_one(Pending::StringCheck(value), request, Reply::Flag(false));
    lemma_run_one(Pending::StringCheck(value), request, Reply::Flag(true));
    lemma_run_two(Pending::StringCheck(value), request, Reply::Flag(true), Reply::Size(size));
}

/// A value is taken for an executable exactly where the runtime says that
/// it can be executed.
pub proof fn law_executable(value: Value, executable: bool)
    ensures
        run(
            Step::Ask(Pending::ExecutableCheck(value), Request::CanExecute(value)),
            seq![Reply::Flag(executable)],
        ) == if executable {
            Step::Done(Outcome::Executable(Executable::of(value)))
        } else {
            Step::Fatal(Failure::NotExecutable)
        },
{
    lemma_run_one(
        Pending::ExecutableCheck(value),
        Request::CanExecute(value),
        Reply::Flag(executable),
    );
}

/// Data are taken out of a value through an accessor. Where the kind is
/// tested first, a wrong kind ends the reception with a mismatch and the
/// accessor is not called; elsewhere the reception ends with the data that
/// the accessor returns.
pub proof fn law_reception(accessor: Accessor, value: Value, fits: bool, reply: Reply)
    ensures
        reception(None, true, value) == Step::Done(Outcome::Datum(Datum::Handle(value))),
        reception(None, false, value) == Step::Done(Outcome::Datum(Datum::Handle(value))),
        run(reception(Some(accessor), false, value), seq![reply]) == match datum_of(
            accessor,
            reply,
        ) {
            Some(datum) => Step::Done(Outcome::Datum(datum)),
            None => Step::Fatal(Failure::UnexpectedReply),
        },
        run(reception(Some(accessor), true, value), seq![Reply::Flag(false)]) == Step::Fatal(
            Failure::KindMismatch,
        ),
        run(reception(Some(accessor), true, value), seq![Reply::Flag(true)]) == Step::Ask(
            Pending::Extraction(accessor),
            Request::Extract(accessor, value),
        ),
        run(reception(Some(accessor), true, value), seq![Reply::Flag(true), reply])
            == match datum_of(accessor, reply) {
            Some(datum) => Step::Done(Outcome::Datum(datum)),
            None => Step::Fatal(Failure::UnexpectedReply),
        },
{
    let check = Pending::KindCheck { accessor, value, failure: Failure::KindMismatch };
    lemma_run_one(Pending::Extraction(accessor), Request::Extract(accessor, value), reply);
    lemma_run_one(check, Request::Check(accessor, value), Reply::Flag(false));
    lemma_run_one(check, Request::Check(accessor, value), Reply::Flag(true));
    lemma_run_two(check, Request::Check(accessor, value), Reply::Flag(true), reply);
}

/// The boolean is taken out of a value exactly where the runtime says that
/// the value is a boolean.
pub proof fn law_boolean(value: Value, boolean: bool, held: bool)
    ensures
        run(
            Step::Ask(
                Pending::KindCheck {
                    accessor: Accessor::Boolean,
                    value,
                    failure: Failure::NotABoolean,
                },
                Request::Check(Accessor::Boolean, value),
            ),
            seq![Reply::Flag(boolean), Reply::Flag(held)],
        ) == if boolean {
            Step::Done(Outcome::Datum(Datum::Boolean(held)))
        } else {
            Step::Fatal(Failure::NotABoolean)
        },
{
    let check = Pending::KindCheck {
        accessor: Accessor::Boolean,
        value,
        failure: Failure::NotABoolean,
    };
    let request = Request::Check(Accessor::Boolean, value);
    if boolean {
        lemma_run_two(check, request, Reply::Flag(boolean), Reply::Flag(held));
    } else {
        let replies = seq![Reply::Flag(boolean), Reply::Flag(held)];
        lemma_run_first(check, request, replies);
        lemma_run_stays(Step::Fatal(Failure::NotABoolean), replies.drop_first());
    }
}

} // verus!
