use graal_bindgen::array::JavaArray;
use graal_bindgen::bridge::{
    as_boolean, as_executable, execute, export, from_string, get_string_size, import,
    invoke_method, is_null, is_string, java_type, new_instance, read_element, rebuild, receive,
    resume, Failure, Outcome, Pending, Reply, Request, Step,
};
use graal_bindgen::builtins::{Object, String as ForeignString};
use graal_bindgen::handle::{Constructor, Executable, Value};
use graal_bindgen::marshal::{
    expect_variadic, make_cstr, make_cstring, pass_argument, Accessor, Datum, Pass, Passable,
    Receive, Word,
};

fn value(address: usize) -> Value {
    Value::from_address(address)
}

/// Hands the replies to the operation in their order and gives the step at
/// which it stands then, with every request that it made.
fn drive(step: Step, replies: &[Reply]) -> (Step, Vec<Request>) {
    let mut step = step;
    let mut asked = Vec::new();
    for reply in replies {
        match step {
            Step::Ask(pending, request) => {
                asked.push(request);
                step = resume(pending, *reply);
            }
            other => return (other, asked),
        }
    }
    (step, asked)
}

#[test]
fn handles_keep_their_address() {
    assert_eq!(value(4096).address(), 4096);
    assert_eq!(Constructor::from_address(8).address(), 8);
    assert_eq!(Executable::from_address(16).address(), 16);
    assert_eq!(Constructor::from_value(value(24)).address(), 24);
    assert_eq!(Executable::from_value(value(32)).address(), 32);
    assert_eq!(value(1), value(1));
    assert_ne!(value(1), value(2));
}

#[test]
fn primitives_pass_as_themselves() {
    assert_eq!(expect_variadic::<i8, i8>(-3), -3);
    assert_eq!(expect_variadic::<i16, i16>(300), 300);
    assert_eq!(expect_variadic::<i32, i32>(70_000), 70_000);
    assert_eq!(expect_variadic::<i64, i64>(-5_000_000_000), -5_000_000_000);
    assert_eq!(expect_variadic::<Value, Value>(value(7)), value(7));
    assert_eq!(7i32.pass(), 7);
}

#[test]
fn passable_values_become_words() {
    assert_eq!((-3i8).word(), Word::I8(-3));
    assert_eq!(300i16.word(), Word::I16(300));
    assert_eq!(70_000i32.word(), Word::I32(70_000));
    assert_eq!((-5_000_000_000i64).word(), Word::I64(-5_000_000_000));
    assert_eq!(value(9).word(), Word::Handle(value(9)));
}

#[test]
fn arguments_are_passed_in_their_representation() {
    let object = Object::from_polyglot_value(Datum::Handle(value(11))).unwrap();
    let mut arguments = Vec::new();
    pass_argument(&mut arguments, 3i32);
    pass_argument(&mut arguments, object);
    pass_argument(&mut arguments, -1i64);
    pass_argument(&mut arguments, value(5));
    assert_eq!(
        arguments,
        vec![Word::I32(3), Word::Handle(value(11)), Word::I64(-1), Word::Handle(value(5))]
    );
}

#[test]
fn generated_types_pass_their_handle() {
    let object = Object::from_polyglot_value(Datum::Handle(value(11))).unwrap();
    assert_eq!(object.pass(), value(11));
    assert_eq!(expect_variadic::<Value, Object>(object), value(11));
    let string = ForeignString::from_polyglot_value(Datum::Handle(value(12))).unwrap();
    assert_eq!(string.pass(), value(12));
    let array = JavaArray::<i32, i32>::from_polyglot_value(Datum::Handle(value(13))).unwrap();
    assert_eq!(array.pass(), value(13));
    assert_eq!(array.clone().pass(), value(13));
}

#[test]
fn types_are_rebuilt_only_from_what_comes_through_their_accessor() {
    assert_eq!(i8::accessor(), Some(Accessor::I8));
    assert_eq!(i16::accessor(), Some(Accessor::I16));
    assert_eq!(i32::accessor(), Some(Accessor::I32));
    assert_eq!(i64::accessor(), Some(Accessor::I64));
    assert_eq!(bool::accessor(), Some(Accessor::Boolean));
    assert_eq!(Object::accessor(), None);
    assert_eq!(ForeignString::accessor(), None);
    assert_eq!(JavaArray::<Object, Value>::accessor(), None);
    assert_eq!(i8::from_polyglot_value(Datum::I8(-1)), Some(-1));
    assert_eq!(i16::from_polyglot_value(Datum::I16(-2)), Some(-2));
    assert_eq!(i32::from_polyglot_value(Datum::I32(-3)), Some(-3));
    assert_eq!(i64::from_polyglot_value(Datum::I64(-4)), Some(-4));
    assert_eq!(bool::from_polyglot_value(Datum::Boolean(true)), Some(true));
    assert_eq!(i32::from_polyglot_value(Datum::I64(3)), None);
    assert_eq!(i32::from_polyglot_value(Datum::Handle(value(1))), None);
    assert_eq!(bool::from_polyglot_value(Datum::I8(1)), None);
    assert_eq!(Object::from_polyglot_value(Datum::I32(1)), None);
    assert_eq!(ForeignString::from_polyglot_value(Datum::Boolean(true)), None);
    assert!(JavaArray::<i32, i32>::from_polyglot_value(Datum::I32(1)).is_none());
}

#[test]
fn c_string_ends_with_zero() {
    assert_eq!(make_cstring("remove"), Some(vec![114, 101, 109, 111, 118, 101, 0]));
    assert_eq!(make_cstring(""), Some(vec![0]));
    assert_eq!(make_cstring("\u{e9}"), Some(vec![0xc3, 0xa9, 0]));
    assert_eq!(make_cstring("a\0b"), None);
    assert_eq!(make_cstring("\0"), None);
    assert_eq!(make_cstr("java.lang.String"), Some(b"java.lang.String\0".to_vec()));
    assert_eq!(make_cstr("java\0lang"), None);
}

#[test]
fn type_lookup_ends_with_the_constructor() {
    let (step, asked) = drive(
        java_type("java.util.ArrayList"),
        &[Reply::Handle(value(64)), Reply::Flag(false), Reply::Flag(true)],
    );
    assert_eq!(step, Step::Done(Outcome::Constructor(Constructor::from_address(64))));
    assert_eq!(
        asked,
        vec![
            Request::JavaType { name: b"java.util.ArrayList\0".to_vec() },
            Request::IsNull(value(64)),
            Request::CanInstantiate(value(64)),
        ]
    );
}

#[test]
fn type_lookup_fails_on_null() {
    let (step, asked) = drive(java_type("no.such.Type"), &[Reply::Handle(value(0)), Reply::Flag(true)]);
    assert_eq!(step, Step::Fatal(Failure::NotAType));
    assert_eq!(asked.len(), 2);
}

#[test]
fn type_lookup_fails_on_what_cannot_be_instantiated() {
    let (step, _) = drive(
        java_type("java.lang.Runnable"),
        &[Reply::Handle(value(64)), Reply::Flag(false), Reply::Flag(false)],
    );
    assert_eq!(step, Step::Fatal(Failure::NotAType));
}

#[test]
fn names_with_a_zero_byte_are_not_handed_over() {
    assert_eq!(java_type("a\0b"), Step::Fatal(Failure::NulInName));
    assert_eq!(import("a\0b"), Step::Fatal(Failure::NulInName));
    assert_eq!(export("a\0b", value(1)), Step::Fatal(Failure::NulInName));
    assert_eq!(invoke_method(value(1), "a\0b", vec![]), Step::Fatal(Failure::NulInName));
}

#[test]
fn import_ends_with_the_value_or_fails() {
    let (step, asked) = drive(import("list"), &[Reply::Handle(value(72)), Reply::Flag(false)]);
    assert_eq!(step, Step::Done(Outcome::Value(value(72))));
    assert_eq!(
        asked,
        vec![Request::Import { name: b"list\0".to_vec() }, Request::IsNull(value(72))]
    );
    let (step, _) = drive(import("nothing"), &[Reply::Handle(value(0)), Reply::Flag(true)]);
    assert_eq!(step, Step::Fatal(Failure::ImportFailed));
}

#[test]
fn export_hands_name_and_value_over() {
    let (step, asked) = drive(export("list", value(72)), &[Reply::Nothing]);
    assert_eq!(step, Step::Done(Outcome::Nothing));
    assert_eq!(asked, vec![Request::Export { name: b"list\0".to_vec(), value: value(72) }]);
}

#[test]
fn host_string_crosses_as_bytes_length_and_charset() {
    let (step, asked) = drive(from_string("h\u{e9}llo"), &[Reply::Handle(value(80))]);
    assert_eq!(step, Step::Done(Outcome::Value(value(80))));
    assert_eq!(
        asked,
        vec![Request::FromString {
            bytes: vec![104, 0xc3, 0xa9, 108, 108, 111],
            length: 6,
            charset: b"UTF-8\0".to_vec(),
        }]
    );
    let (_, asked) = drive(from_string(""), &[Reply::Handle(value(80))]);
    assert_eq!(
        asked,
        vec![Request::FromString { bytes: vec![], length: 0, charset: b"UTF-8\0".to_vec() }]
    );
}

#[test]
fn flags_are_handed_through() {
    assert_eq!(drive(is_string(value(1)), &[Reply::Flag(true)]).0, Step::Done(Outcome::Flag(true)));
    assert_eq!(drive(is_string(value(1)), &[Reply::Flag(false)]).0, Step::Done(Outcome::Flag(false)));
    assert_eq!(drive(is_null(value(1)), &[Reply::Flag(true)]).0, Step::Done(Outcome::Flag(true)));
    assert_eq!(is_string(value(1)), Step::Ask(Pending::Flag, Request::IsString(value(1))));
    assert_eq!(is_null(value(1)), Step::Ask(Pending::Flag, Request::IsNull(value(1))));
}

#[test]
fn string_size_is_asked_of_strings_only() {
    let (step, asked) = drive(get_string_size(value(5)), &[Reply::Flag(true), Reply::Size(42)]);
    assert_eq!(step, Step::Done(Outcome::Size(42)));
    assert_eq!(asked, vec![Request::IsString(value(5)), Request::GetStringSize(value(5))]);
    let (step, asked) = drive(get_string_size(value(5)), &[Reply::Flag(false), Reply::Size(42)]);
    assert_eq!(step, Step::Fatal(Failure::NotAString));
    assert_eq!(asked, vec![Request::IsString(value(5))]);
}

#[test]
fn executable_is_what_can_be_executed() {
    let (step, asked) = drive(as_executable(value(6)), &[Reply::Flag(true)]);
    assert_eq!(step, Step::Done(Outcome::Executable(Executable::from_address(6))));
    assert_eq!(asked, vec![Request::CanExecute(value(6))]);
    assert_eq!(drive(as_executable(value(6)), &[Reply::Flag(false)]).0, Step::Fatal(Failure::NotExecutable));
}

#[test]
fn boolean_is_taken_out_of_booleans_only() {
    let (step, asked) = drive(as_boolean(value(7)), &[Reply::Flag(true), Reply::Flag(false)]);
    assert_eq!(step, Step::Done(Outcome::Datum(Datum::Boolean(false))));
    assert_eq!(
        asked,
        vec![Request::Check(Accessor::Boolean, value(7)), Request::Extract(Accessor::Boolean, value(7))]
    );
    assert_eq!(rebuild::<bool>(Outcome::Datum(Datum::Boolean(false))), Some(false));
    assert_eq!(drive(as_boolean(value(7)), &[Reply::Flag(false)]).0, Step::Fatal(Failure::NotABoolean));
}

#[test]
fn calls_hand_their_arguments_on_in_order() {
    let arguments = vec![Word::I32(3), Word::Handle(value(9)), Word::I64(-1)];
    let constructor = Constructor::from_address(64);
    let (step, asked) = drive(new_instance(constructor, arguments.clone()), &[Reply::Handle(value(88))]);
    assert_eq!(step, Step::Done(Outcome::Value(value(88))));
    assert_eq!(asked, vec![Request::NewInstance { constructor, arguments: arguments.clone() }]);
    let (step, asked) = drive(invoke_method(value(88), "add", arguments.clone()), &[Reply::Handle(value(96))]);
    assert_eq!(step, Step::Done(Outcome::Value(value(96))));
    assert_eq!(
        asked,
        vec![Request::Invoke { receiver: value(88), method: b"add\0".to_vec(), arguments: arguments.clone() }]
    );
    let executable = Executable::from_address(104);
    let (step, asked) = drive(execute(executable, vec![]), &[Reply::Handle(value(112))]);
    assert_eq!(step, Step::Done(Outcome::Value(value(112))));
    assert_eq!(asked, vec![Request::ExecuteNullary(executable)]);
    let (_, asked) = drive(execute(executable, arguments.clone()), &[Reply::Handle(value(112))]);
    assert_eq!(asked, vec![Request::Execute { executable, arguments }]);
}

#[test]
fn primitive_is_received_through_its_accessor() {
    let (step, asked) = drive(receive(i32::accessor(), false, value(3)), &[Reply::I32(-17)]);
    assert_eq!(step, Step::Done(Outcome::Datum(Datum::I32(-17))));
    assert_eq!(asked, vec![Request::Extract(Accessor::I32, value(3))]);
    assert_eq!(rebuild::<i32>(Outcome::Datum(Datum::I32(-17))), Some(-17));
    let (step, _) = drive(receive(i8::accessor(), false, value(3)), &[Reply::I8(-128)]);
    assert_eq!(step, Step::Done(Outcome::Datum(Datum::I8(-128))));
    let (step, _) = drive(receive(i16::accessor(), false, value(3)), &[Reply::I16(i16::MAX)]);
    assert_eq!(step, Step::Done(Outcome::Datum(Datum::I16(i16::MAX))));
    let (step, _) = drive(receive(i64::accessor(), false, value(3)), &[Reply::I64(i64::MIN)]);
    assert_eq!(step, Step::Done(Outcome::Datum(Datum::I64(i64::MIN))));
    let (step, _) = drive(receive(bool::accessor(), false, value(3)), &[Reply::Flag(true)]);
    assert_eq!(step, Step::Done(Outcome::Datum(Datum::Boolean(true))));
}

#[test]
fn checked_reception_tests_the_kind_first() {
    let (step, asked) = drive(receive(i32::accessor(), true, value(3)), &[Reply::Flag(true), Reply::I32(5)]);
    assert_eq!(step, Step::Done(Outcome::Datum(Datum::I32(5))));
    assert_eq!(
        asked,
        vec![Request::Check(Accessor::I32, value(3)), Request::Extract(Accessor::I32, value(3))]
    );
    let (step, asked) = drive(receive(i32::accessor(), true, value(3)), &[Reply::Flag(false), Reply::I32(5)]);
    assert_eq!(step, Step::Fatal(Failure::KindMismatch));
    assert_eq!(asked.len(), 1);
}

#[test]
fn handle_types_are_received_without_a_call() {
    assert_eq!(
        receive(Object::accessor(), true, value(3)),
        Step::Done(Outcome::Datum(Datum::Handle(value(3))))
    );
    let object = rebuild::<Object>(Outcome::Datum(Datum::Handle(value(3)))).unwrap();
    assert_eq!(object.pass(), value(3));
}

#[test]
fn rebuild_wants_a_datum() {
    assert_eq!(rebuild::<i32>(Outcome::Absent), None);
    assert_eq!(rebuild::<i32>(Outcome::Value(value(1))), None);
    assert_eq!(rebuild::<i32>(Outcome::Size(1)), None);
    assert_eq!(rebuild::<i32>(Outcome::Flag(true)), None);
    assert_eq!(rebuild::<i32>(Outcome::Nothing), None);
    assert_eq!(rebuild::<i32>(Outcome::Datum(Datum::I64(1))), None);
    assert_eq!(rebuild::<Object>(Outcome::Constructor(Constructor::from_address(1))), None);
    assert_eq!(rebuild::<Object>(Outcome::Executable(Executable::from_address(1))), None);
}

#[test]
fn replies_of_the_wrong_shape_end_the_operation() {
    assert_eq!(resume(Pending::TypeLookup, Reply::Flag(true)), Step::Fatal(Failure::UnexpectedReply));
    assert_eq!(resume(Pending::TypeNullCheck(value(1)), Reply::Nothing), Step::Fatal(Failure::UnexpectedReply));
    assert_eq!(resume(Pending::Completion, Reply::Size(1)), Step::Fatal(Failure::UnexpectedReply));
    assert_eq!(resume(Pending::Handle, Reply::I32(1)), Step::Fatal(Failure::UnexpectedReply));
    assert_eq!(resume(Pending::Flag, Reply::Handle(value(1))), Step::Fatal(Failure::UnexpectedReply));
    assert_eq!(resume(Pending::Size, Reply::Flag(true)), Step::Fatal(Failure::UnexpectedReply));
    assert_eq!(resume(Pending::Extraction(Accessor::I32), Reply::I64(1)), Step::Fatal(Failure::UnexpectedReply));
    assert_eq!(resume(Pending::Extraction(Accessor::Boolean), Reply::I8(1)), Step::Fatal(Failure::UnexpectedReply));
    assert_eq!(
        resume(Pending::ArrayElement { accessor: None, checked: false }, Reply::Size(1)),
        Step::Fatal(Failure::UnexpectedReply)
    );
}

#[test]
fn array_get_outside_the_reported_size_is_absent() {
    let array = JavaArray::<i32, i32>::from_polyglot_value(Datum::Handle(value(200))).unwrap();
    for (index, size) in [(3u64, 3u64), (4, 3), (0, 0), (u64::MAX, 10), (1 << 31, 5)] {
        let (step, asked) = drive(array.get(index, false), &[Reply::Size(size), Reply::Handle(value(1))]);
        assert_eq!(step, Step::Done(Outcome::Absent));
        assert_eq!(asked, vec![Request::GetArraySize(value(200))]);
        assert_eq!(rebuild::<i32>(Outcome::Absent), None);
    }
}

#[test]
fn array_get_inside_the_reported_size_is_the_reported_element() {
    let array = JavaArray::<i32, i32>::from_polyglot_value(Datum::Handle(value(200))).unwrap();
    let (step, asked) = drive(
        array.get(2, false),
        &[Reply::Size(3), Reply::Handle(value(208)), Reply::I32(99)],
    );
    assert_eq!(
        asked,
        vec![
            Request::GetArraySize(value(200)),
            Request::GetArrayElement(value(200), 2),
            Request::Extract(Accessor::I32, value(208)),
        ]
    );
    match step {
        Step::Done(outcome) => assert_eq!(rebuild::<i32>(outcome), Some(99)),
        other => panic!("{:?}", other),
    }
    let (step, asked) = drive(
        array.get(0, true),
        &[Reply::Size(1), Reply::Handle(value(208)), Reply::Flag(true), Reply::I32(-1)],
    );
    assert_eq!(asked[2], Request::Check(Accessor::I32, value(208)));
    assert_eq!(step, Step::Done(Outcome::Datum(Datum::I32(-1))));
}

#[test]
fn array_of_objects_gives_the_handle_of_the_element() {
    let array = JavaArray::<Object, Value>::from_polyglot_value(Datum::Handle(value(300))).unwrap();
    let (step, asked) = drive(array.get(1, true), &[Reply::Size(2), Reply::Handle(value(308))]);
    assert_eq!(asked, vec![Request::GetArraySize(value(300)), Request::GetArrayElement(value(300), 1)]);
    match step {
        Step::Done(outcome) => {
            assert_eq!(rebuild::<Object>(outcome).unwrap().pass(), value(308));
        }
        other => panic!("{:?}", other),
    }
}

#[test]
fn array_element_is_asked_for_at_the_index_itself() {
    let array = JavaArray::<Object, Value>::from_polyglot_value(Datum::Handle(value(300))).unwrap();
    for index in [0u64, 1, (1 << 31) - 1, 1 << 31, (1 << 32) + 5, u64::MAX - 1] {
        let (step, asked) =
            drive(array.get(index, false), &[Reply::Size(u64::MAX), Reply::Handle(value(1))]);
        assert_eq!(
            asked,
            vec![Request::GetArraySize(value(300)), Request::GetArrayElement(value(300), index)]
        );
        assert_eq!(step, Step::Done(Outcome::Datum(Datum::Handle(value(1)))));
    }
}

#[test]
fn reading_begins_with_the_size() {
    let step = read_element(value(300), 7, Some(Accessor::I64), true);
    assert_eq!(
        step,
        Step::Ask(
            Pending::ArraySize {
                array: value(300),
                index: 7,
                accessor: Some(Accessor::I64),
                checked: true,
            },
            Request::GetArraySize(value(300)),
        )
    );
    let array = JavaArray::<i64, i64>::from_polyglot_value(Datum::Handle(value(300))).unwrap();
    assert_eq!(array.get(7, true), step);
}
