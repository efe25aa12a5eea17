use graal_bindgen::aggregate::{quote_class, Aggregate};
use graal_bindgen::array::JavaArray;
use graal_bindgen::binding::{Binding, NativeCall};
use graal_bindgen::bridge::{
    invoke_method, java_type, new_instance, rebuild, receive, resume, Failure, Outcome, Reply,
    Request, Step,
};
use graal_bindgen::handle::Value;
use graal_bindgen::lexer::tokenize;
use graal_bindgen::builtins::Object;
use graal_bindgen::marshal::{Accessor, Pass, Receive, Word};
use graal_bindgen::stub::Class;

/// What lives in the guest of these tests.
enum Guest {
    Null,
    Type,
    List(Vec<i32>),
    Array(Vec<i32>),
    Int(i32),
    Bool(bool),
}

/// A guest runtime that knows one type, `java.util.ArrayList`, with elements
/// that are integers. The handle of a guest value is its place in the heap.
struct Runtime {
    heap: Vec<Guest>,
    calls: usize,
}

impl Runtime {
    fn new() -> Runtime {
        Runtime { heap: vec![Guest::Null], calls: 0 }
    }

    fn put(&mut self, guest: Guest) -> Reply {
        self.heap.push(guest);
        Reply::Handle(Value::from_address(self.heap.len() - 1))
    }

    fn integer(word: &Word) -> i32 {
        match word {
            Word::I32(value) => *value,
            other => panic!("an integer was expected, not {:?}", other),
        }
    }

    fn perform(&mut self, request: &Request) -> Reply {
        self.calls += 1;
        match request {
            Request::JavaType { name } => {
                if name.as_slice() == b"java.util.ArrayList\0" {
                    self.put(Guest::Type)
                } else {
                    Reply::Handle(Value::from_address(0))
                }
            }
            Request::IsNull(value) => Reply::Flag(matches!(self.heap[value.address()], Guest::Null)),
            Request::CanInstantiate(value) => {
                Reply::Flag(matches!(self.heap[value.address()], Guest::Type))
            }
            Request::NewInstance { constructor, arguments } => {
                assert!(matches!(self.heap[constructor.address()], Guest::Type));
                assert!(arguments.len() <= 1);
                self.put(Guest::List(Vec::new()))
            }
            Request::Invoke { receiver, method, arguments } => {
                let place = receiver.address();
                let list = match &mut self.heap[place] {
                    Guest::List(list) => list,
                    _ => panic!("the receiver is no list"),
                };
                let result = match method.as_slice() {
                    b"size\0" => Guest::Int(list.len() as i32),
                    b"add\0" => {
                        list.push(Runtime::integer(&arguments[0]));
                        Guest::Bool(true)
                    }
                    b"get\0" => Guest::Int(list[Runtime::integer(&arguments[0]) as usize]),
                    b"remove\0" => Guest::Int(list.remove(Runtime::integer(&arguments[0]) as usize)),
                    b"toArray\0" => Guest::Array(list.clone()),
                    other => panic!("no method {:?}", other),
                };
                self.put(result)
            }
            Request::Check(accessor, value) => Reply::Flag(match (&self.heap[value.address()], accessor) {
                (Guest::Int(_), Accessor::I32) => true,
                (Guest::Bool(_), Accessor::Boolean) => true,
                _ => false,
            }),
            Request::Extract(accessor, value) => match (&self.heap[value.address()], accessor) {
                (Guest::Int(value), Accessor::I32) => Reply::I32(*value),
                (Guest::Bool(value), Accessor::Boolean) => Reply::Flag(*value),
                _ => panic!("nothing to take out"),
            },
            Request::GetArraySize(array) => match &self.heap[array.address()] {
                Guest::Array(items) => Reply::Size(items.len() as u64),
                _ => panic!("no array"),
            },
            Request::GetArrayElement(array, index) => {
                let item = match &self.heap[array.address()] {
                    Guest::Array(items) => items[usize::try_from(*index).unwrap()],
                    _ => panic!("no array"),
                };
                self.put(Guest::Int(item))
            }
            other => panic!("the guest does not know {:?}", other),
        }
    }

    /// Makes the calls that an operation asks for until it is done.
    fn complete(&mut self, step: Step) -> Result<Outcome, Failure> {
        let mut step = step;
        loop {
            match step {
                Step::Ask(pending, request) => {
                    let reply = self.perform(&request);
                    step = resume(pending, reply);
                }
                Step::Done(outcome) => return Ok(outcome),
                Step::Fatal(failure) => return Err(failure),
            }
        }
    }

    fn value(&mut self, step: Step) -> Value {
        match self.complete(step) {
            Ok(Outcome::Value(value)) => value,
            other => panic!("a value was expected, not {:?}", other),
        }
    }

    /// Does what the body of a binding function does.
    fn call<T: Receive>(&mut self, binding: &Binding, receiver: Option<Value>, arguments: Vec<Word>) -> Option<T> {
        assert_eq!(binding.arguments.len(), arguments.len());
        let result = match &binding.call {
            NativeCall::NewInstance { foreign_type } => {
                let constructor = match self.complete(java_type(foreign_type)) {
                    Ok(Outcome::Constructor(constructor)) => constructor,
                    other => panic!("a constructor was expected, not {:?}", other),
                };
                self.value(new_instance(constructor, arguments))
            }
            NativeCall::Invoke { method } => {
                self.value(invoke_method(receiver.unwrap(), method, arguments))
            }
        };
        if binding.conversion.is_empty() {
            return None;
        }
        let outcome = self.complete(receive(T::accessor(), true, result)).unwrap();
        rebuild::<T>(outcome)
    }
}

fn list_bindings() -> Aggregate {
    let source = "java.util.ArrayList<E> {
        new();
        new_with_length(int initialCapacity);
        int size();
        boolean add(E e);
        E get(int index);
        E remove_at remove(int index);
        E[] toArray();
    }";
    let tokens = tokenize(source).unwrap().tokens;
    quote_class(&Class::parse(&tokens).unwrap())
}

fn binding<'a>(aggregate: &'a Aggregate, name: &str) -> &'a Binding {
    aggregate.bindings.iter().find(|binding| binding.name == name).unwrap()
}

/// Makes a list through the binding `name` and gives its handle.
fn make(runtime: &mut Runtime, bindings: &Aggregate, name: &str, arguments: Vec<Word>) -> Value {
    runtime.call::<Object>(binding(bindings, name), None, arguments).unwrap().pass()
}

#[test]
fn list_grows_and_shrinks_through_its_bindings() {
    let bindings = list_bindings();
    let mut runtime = Runtime::new();
    let list = make(&mut runtime, &bindings, "new", vec![]);
    for i in 0..100 {
        let added = runtime.call::<bool>(binding(&bindings, "add"), Some(list), vec![Word::I32(i)]);
        assert_eq!(added, Some(true));
    }
    assert_eq!(runtime.call::<i32>(binding(&bindings, "size"), Some(list), vec![]), Some(100));
    assert_eq!(runtime.call::<i32>(binding(&bindings, "get"), Some(list), vec![Word::I32(41)]), Some(41));
    for i in 0..100 {
        let removed = runtime.call::<i32>(binding(&bindings, "remove_at"), Some(list), vec![Word::I32(0)]);
        assert_eq!(removed, Some(i));
    }
    assert_eq!(runtime.call::<i32>(binding(&bindings, "size"), Some(list), vec![]), Some(0));
}

#[test]
fn constructor_with_length_gives_an_empty_list() {
    let bindings = list_bindings();
    let mut runtime = Runtime::new();
    let list = make(&mut runtime, &bindings, "new_with_length", vec![Word::I32(16)]);
    assert_eq!(runtime.call::<i32>(binding(&bindings, "size"), Some(list), vec![]), Some(0));
}

#[test]
fn lookup_of_an_unknown_type_fails_for_good() {
    let mut runtime = Runtime::new();
    assert_eq!(runtime.complete(java_type("java.util.LinkedList")), Err(Failure::NotAType));
    assert_eq!(runtime.calls, 2);
}

#[test]
fn array_of_the_list_is_read_with_bounds_checked() {
    let bindings = list_bindings();
    let mut runtime = Runtime::new();
    let list = make(&mut runtime, &bindings, "new", vec![]);
    for i in 0..5 {
        runtime.call::<bool>(binding(&bindings, "add"), Some(list), vec![Word::I32(10 * i)]);
    }
    let array = runtime
        .call::<JavaArray<i32, i32>>(binding(&bindings, "toArray"), Some(list), vec![])
        .unwrap();
    for index in 0..5u64 {
        let outcome = runtime.complete(array.get(index, true)).unwrap();
        assert_eq!(rebuild::<i32>(outcome), Some(10 * index as i32));
    }
    for index in [5u64, 6, 1 << 40, u64::MAX] {
        let before = runtime.calls;
        assert_eq!(runtime.complete(array.get(index, true)), Ok(Outcome::Absent));
        assert_eq!(runtime.calls, before + 1);
    }
}
