//! The type that owns the bindings of one class, and its text.
//!
//! The type holds one handle. For every generic parameter of the class it
//! takes two type parameters: the parameter itself and the representation in
//! which a value of it crosses the boundary. The representation is bound as
//! `Passable`; the parameter is bound to produce that representation and to
//! be rebuilt from a handle. A marker field for each type parameter keeps it
//! in the type without a value of it.
use vstd::prelude::*;
use vstd::string::*;
use crate::binding::{render, Binding, BindingView};
use crate::generator::{
    constructor_binding, generic_list, host_name, method_binding, quote_constructor_stub,
    quote_function_stub, representation,
};
use crate::stub::{views, Class, ClassView, JavaStub, StubView};
use crate::text::{each_led, join_texts, led_texts};

verus! {

/// A generic parameter of a class with the representation that is paired
/// with it.
#[derive(Clone, Debug, PartialEq, Eq)]
pub struct Bound {
    pub parameter: String,
    pub representation: String,
}

/// What a bound is, with characters in place of strings.
pub struct BoundView {
    pub parameter: Seq<char>,
    pub representation: Seq<char>,
}

impl View for Bound {
    type V = BoundView;

    open spec fn view(&self) -> BoundView {
        BoundView { parameter: self.parameter@, representation: self.representation@ }
    }
}

/// The owning type of a class: its host name, its generic parameters with
/// their representations where the class has generics, and the bindings of
/// its stubs in their order.
#[derive(Clone, Debug, PartialEq, Eq)]
pub struct Aggregate {
    pub name: String,
    pub bounds: Option<Vec<Bound>>,
    pub bindings: Vec<Binding>,
}

/// What an owning type is, with characters in place of strings.
pub struct AggregateView {
    pub name: Seq<char>,
    pub bounds: Option<Seq<BoundView>>,
    pub bindings: Seq<BindingView>,
}

/// The bounds of a vector that may be absent, each by its view.
pub open spec fn optional_bounds(bounds: Option<Vec<Bound>>) -> Option<Seq<BoundView>> {
    match bounds {
        Some(bounds) => Some(views(bounds@)),
        None => None,
    }
}

impl View for Aggregate {
    type V = AggregateView;

    open spec fn view(&self) -> AggregateView {
        AggregateView {
            name: self.name@,
            bounds: optional_bounds(self.bounds),
            bindings: views(self.bindings@),
        }
    }
}

/// A generic parameter with the representation that belongs to it.
pub open spec fn bound_of(parameter: Seq<char>) -> BoundView {
    BoundView { parameter, representation: representation(parameter) }
}

/// The bounds of the generic parameters of a class, in their order.
pub open spec fn bounds_of(generics: Option<Seq<Seq<char>>>) -> Option<Seq<BoundView>> {
    match generics {
        Some(generics) => Some(generics.map_values(|parameter: Seq<char>| bound_of(parameter))),
        None => None,
    }
}

/// The type parameters of the owning type: the generic parameters of the
/// class, then their representations.
pub open spec fn type_parameters(bounds: Seq<BoundView>) -> Seq<Seq<char>> {
    bounds.map_values(|bound: BoundView| bound.parameter) + bounds.map_values(
        |bound: BoundView| bound.representation,
    )
}

/// The type parameters where there are bounds.
pub open spec fn optional_type_parameters(bounds: Option<Seq<BoundView>>) -> Option<
    Seq<Seq<char>>,
> {
    match bounds {
        Some(bounds) => Some(type_parameters(bounds)),
        None => None,
    }
}

/// The binding of one stub of a class.
pub open spec fn stub_binding(class: ClassView, stub: StubView) -> BindingView {
    match stub {
        StubView::Constructor(stub) => constructor_binding(
            class.qualified_name,
            optional_type_parameters(bounds_of(class.generics)),
            stub,
        ),
        StubView::Function(stub) => method_binding(stub),
    }
}

/// The owning type of a class.
pub open spec fn aggregate_of(class: ClassView) -> AggregateView {
    AggregateView {
        name: host_name(class.qualified_name),
        bounds: bounds_of(class.generics),
        bindings: class.stubs.map_values(|stub: StubView| stub_binding(class, stub)),
    }
}

/// The two bounds that one generic parameter carries.
pub open spec fn bound_text(bound: BoundView) -> Seq<char> {
    bound.representation + ": Passable, "@ + bound.parameter + ": Pass<"@ + bound.representation
        + "> + Receive,"@
}

/// `where` and the bounds of every generic parameter, or nothing where the
/// class has no generics.
pub open spec fn where_clause(bounds: Option<Seq<BoundView>>) -> Seq<char> {
    match bounds {
        Some(bounds) => " where"@ + each_led(
            bounds.map_values(|bound: BoundView| bound_text(bound)),
            " "@,
        ),
        None => Seq::empty(),
    }
}

/// The marker field of a type parameter.
pub open spec fn phantom_field(parameter: Seq<char>) -> Seq<char> {
    "__phantom_"@ + parameter + ": PhantomData<"@ + parameter + ">"@
}

/// What the marker field of a type parameter is set to.
pub open spec fn phantom_value(parameter: Seq<char>) -> Seq<char> {
    "__phantom_"@ + parameter + ": PhantomData"@
}

/// The type parameters, or none where there are no bounds.
pub open spec fn all_type_parameters(bounds: Option<Seq<BoundView>>) -> Seq<Seq<char>> {
    match bounds {
        Some(bounds) => type_parameters(bounds),
        None => Seq::empty(),
    }
}

/// The text of an owning type: the struct, the block of its bindings, and
/// the two capabilities that wrap and unwrap its handle.
pub open spec fn render_aggregate(aggregate: AggregateView) -> Seq<char> {
    let generics = generic_list(optional_type_parameters(aggregate.bounds));
    let bounds = where_clause(aggregate.bounds);
    let parameters = all_type_parameters(aggregate.bounds);
    "pub struct "@ + aggregate.name + generics + bounds + " { ptr: *mut Value"@ + each_led(
        parameters.map_values(|parameter: Seq<char>| phantom_field(parameter)),
        ", "@,
    ) + " }\nimpl"@ + generics + " "@ + aggregate.name + generics + bounds + " {"@ + each_led(
        aggregate.bindings.map_values(|binding: BindingView| render(binding)),
        " "@,
    ) + " }\nunsafe impl"@ + generics + " Receive for "@ + aggregate.name + generics + bounds
        + " { fn from_polyglot_value(value: *mut Value) -> Self { Self { ptr: value"@ + each_led(
        parameters.map_values(|parameter: Seq<char>| phantom_value(parameter)),
        ", "@,
    ) + " } } }\nunsafe impl"@ + generics + " Pass<*mut Value> for "@ + aggregate.name + generics
        + bounds + " { fn pass(&self) -> *mut Value { self.ptr } }\n"@
}

/// The owning type of a class: it goes by the last segment of the class's
/// name, pairs every generic parameter with a representation, and has one
/// binding for each stub, in the order of the stubs.
pub fn quote_class(class: &Class) -> (aggregate: Aggregate)
    ensures
        aggregate@ == aggregate_of(class@),
        aggregate.name@ == host_name(class.qualified_name@),
        aggregate.bounds is Some <==> class.generics is Some,
        aggregate.bounds matches Some(bounds) ==> {
            &&& bounds.len() == class.generics->Some_0.names.len()
            &&& forall|i: int|
                0 <= i < bounds.len() ==> (#[trigger] bounds[i]).parameter@
                    == class.generics->Some_0.names[i]@
            &&& forall|i: int|
                0 <= i < bounds.len() ==> (#[trigger] bounds[i]).representation@
                    == bounds[i].parameter@ + "Passable"@
        },
        aggregate.bindings.len() == class.stubs.len(),
        forall|i: int|
            0 <= i < class.stubs.len() ==> (#[trigger] aggregate.bindings[i])@ == stub_binding(
                class@,
                class.stubs[i]@,
            ),
{
    let name = class.qualified_name.host_name();
    let mut generics: Option<Vec<String>> = None;
    let mut bounds: Option<Vec<Bound>> = None;
    match &class.generics {
        Some(declared) => {
            let mut paired: Vec<Bound> = Vec::new();
            let mut all: Vec<String> = Vec::new();
            let mut i: usize = 0;
            while i < declared.names.len()
                invariant
                    i <= declared.names.len(),
                    paired.len() == i,
                    all.len() == i,
                    forall|k: int| 0 <= k < i ==> (#[trigger] paired[k])@ == bound_of(
                        declared.names[k]@,
                    ),
                    forall|k: int| 0 <= k < i ==> (#[trigger] all[k])@ == declared.names[k]@,
                decreases declared.names.len() - i,
            {
                let mut paired_name = declared.names[i].clone();
                paired_name.append("Passable");
                paired.push(
                    Bound { parameter: declared.names[i].clone(), representation: paired_name },
                );
                all.push(declared.names[i].clone());
                i = i + 1;
            }
            let mut j: usize = 0;
            while j < declared.names.len()
                invariant
                    j <= declared.names.len(),
                    paired.len() == declared.names.len(),
                    all.len() == declared.names.len() + j,
                    forall|k: int|
                        0 <= k < declared.names.len() ==> (#[trigger] paired[k])@ == bound_of(
                            declared.names[k]@,
                        ),
                    forall|k: int|
                        0 <= k < declared.names.len() ==> (#[trigger] all[k])@
                            == declared.names[k]@,
                    forall|k: int|
                        0 <= k < j ==> (#[trigger] all[declared.names.len() + k])@
                            == representation(declared.names[k]@),
                decreases declared.names.len() - j,
            {
                all.push(paired[j].representation.clone());
                j = j + 1;
            }
            proof {
                let expected = bounds_of(Some(declared@))->Some_0;
                assert(views(paired@) =~= expected);
                assert forall|k: int| 0 <= k < all.len() implies (#[trigger] views(all@)[k])
                    == type_parameters(expected)[k] by {
                    if k >= declared.names.len() {
                        assert(all[declared.names.len() + (k - declared.names.len())]@
                            == representation(declared.names[k - declared.names.len()]@));
                    }
                }
                assert(views(all@) =~= type_parameters(expected));
            }
            generics = Some(all);
            bounds = Some(paired);
        },
        None => {},
    }
    let mut bindings: Vec<Binding> = Vec::new();
    let mut i: usize = 0;
    while i < class.stubs.len()
        invariant
            i <= class.stubs.len(),
            bindings.len() == i,
            optional_bounds(bounds) == bounds_of(class@.generics),
            crate::generator::optional_texts(generics) == optional_type_parameters(
                bounds_of(class@.generics),
            ),
            forall|k: int|
                0 <= k < i ==> (#[trigger] bindings[k])@ == stub_binding(class@, class.stubs[k]@),
        decreases class.stubs.len() - i,
    {
        let binding = match &class.stubs[i] {
            JavaStub::JavaConstructorStub(stub) => quote_constructor_stub(
                &class.qualified_name,
                &generics,
                stub,
            ),
            JavaStub::JavaFunctionStub(stub) => quote_function_stub(stub),
        };
        bindings.push(binding);
        i = i + 1;
    }
    assert(views(bindings@) =~= aggregate_of(class@).bindings);
    Aggregate { name, bounds, bindings }
}

impl Aggregate {
    /// The type parameters of the owning type: the generic parameters, then
    /// their representations.
    pub fn type_parameters(&self) -> (out: Vec<String>)
        ensures
            views(out@) == all_type_parameters(self@.bounds),
    {
        let mut out: Vec<String> = Vec::new();
        match &self.bounds {
            Some(bounds) => {
                let mut i: usize = 0;
                while i < bounds.len()
                    invariant
                        i <= bounds.len(),
                        out.len() == i,
                        forall|k: int| 0 <= k < i ==> (#[trigger] out[k])@ == bounds[k].parameter@,
                    decreases bounds.len() - i,
                {
                    out.push(bounds[i].parameter.clone());
                    i = i + 1;
                }
                let mut j: usize = 0;
                while j < bounds.len()
                    invariant
                        j <= bounds.len(),
                        out.len() == bounds.len() + j,
                        forall|k: int|
                            0 <= k < bounds.len() ==> (#[trigger] out[k])@ == bounds[k].parameter@,
                        forall|k: int|
                            0 <= k < j ==> (#[trigger] out[bounds.len() + k])@
                                == bounds[k].representation@,
                    decreases bounds.len() - j,
                {
                    out.push(bounds[j].representation.clone());
                    j = j + 1;
                }
                proof {
                    let expected = type_parameters(views(bounds@));
                    assert forall|k: int| 0 <= k < out.len() implies (#[trigger] views(out@)[k])
                        == expected[k] by {
                        if k >= bounds.len() {
                            assert(out[bounds.len() + (k - bounds.len())]@ == bounds[k
                                - bounds.len()].representation@);
                        }
                    }
                    assert(views(out@) =~= expected);
                }
            },
            None => {
                assert(views(out@) =~= Seq::<Seq<char>>::empty());
            },
        }
        out
    }

    /// Writes the owning type out.
    pub fn render(&self) -> (out: String)
        ensures
            out@ == render_aggregate(self@),
    {
        let parameters = self.type_parameters();
        let mut generics = String::new();
        let mut bounds = String::new();
        match &self.bounds {
            Some(declared) => {
                let list = join_texts(&parameters, ", ");
                generics.append("<");
                generics.append(list.as_str());
                generics.append(">");
                let mut clauses: Vec<String> = Vec::new();
                let mut i: usize = 0;
                while i < declared.len()
                    invariant
                        i <= declared.len(),
                        clauses.len() == i,
                        forall|k: int|
                            0 <= k < i ==> (#[trigger] clauses[k])@ == bound_text(declared[k]@),
                    decreases declared.len() - i,
                {
                    let mut clause = declared[i].representation.clone();
                    clause.append(": Passable, ");
                    clause.append(declared[i].parameter.as_str());
                    clause.append(": Pass<");
                    clause.append(declared[i].representation.as_str());
                    clause.append("> + Receive,");
                    clauses.push(clause);
                    i = i + 1;
                }
                assert(views(clauses@) =~= views(declared@).map_values(
                    |bound: BoundView| bound_text(bound),
                ));
                let led = led_texts(&clauses, " ");
                bounds.append(" where");
                bounds.append(led.as_str());
                assert(generics@ =~= generic_list(optional_type_parameters(self@.bounds)));
                assert(bounds@ =~= where_clause(self@.bounds));
            },
            None => {},
        }
        let mut fields: Vec<String> = Vec::new();
        let mut values: Vec<String> = Vec::new();
        let mut i: usize = 0;
        while i < parameters.len()
            invariant
                i <= parameters.len(),
                fields.len() == i,
                values.len() == i,
                forall|k: int| 0 <= k < i ==> (#[trigger] fields[k])@ == phantom_field(
                    parameters[k]@,
                ),
                forall|k: int| 0 <= k < i ==> (#[trigger] values[k])@ == phantom_value(
                    parameters[k]@,
                ),
            decreases parameters.len() - i,
        {
            let mut field = String::new();
            field.append("__phantom_");
            field.append(parameters[i].as_str());
            let mut value = field.clone();
            field.append(": PhantomData<");
            field.append(parameters[i].as_str());
            field.append(">");
            value.append(": PhantomData");
            assert(field@ =~= phantom_field(parameters[i as int]@));
            assert(value@ =~= phantom_value(parameters[i as int]@));
            fields.push(field);
            values.push(value);
            i = i + 1;
        }
        assert(views(fields@) =~= views(parameters@).map_values(
            |parameter: Seq<char>| phantom_field(parameter),
        ));
        assert(views(values@) =~= views(parameters@).map_values(
            |parameter: Seq<char>| phantom_value(parameter),
        ));
        let mut functions: Vec<String> = Vec::new();
        let mut j: usize = 0;
        while j < self.bindings.len()
            invariant
                j <= self.bindings.len(),
                functions.len() == j,
                forall|k: int| 0 <= k < j ==> (#[trigger] functions[k])@ == render(
                    self.bindings[k]@,
                ),
            decreases self.bindings.len() - j,
        {
            functions.push(self.bindings[j].render());
            j = j + 1;
        }
        assert(views(functions@) =~= views(self.bindings@).map_values(
            |binding: BindingView| render(binding),
        ));
        let fields = led_texts(&fields, ", ");
        let values = led_texts(&values, ", ");
        let functions = led_texts(&functions, " ");
        let mut out = String::new();
        out.append("pub struct ");
        out.append(self.name.as_str());
        out.append(generics.as_str());
        out.append(bounds.as_str());
        out.append(" { ptr: *mut Value");
        out.append(fields.as_str());
        out.append(" }\nimpl");
        out.append(generics.as_str());
        out.append(" ");
        out.append(self.name.as_str());
        out.append(generics.as_str());
        out.append(bounds.as_str());
        out.append(" {");
        out.append(functions.as_str());
        out.append(" }\nunsafe impl");
        out.append(generics.as_str());
        out.append(" Receive for ");
        out.append(self.name.as_str());
        out.append(generics.as_str());
        out.append(bounds.as_str());
        out.append(" { fn from_polyglot_value(value: *mut Value) -> Self { Self { ptr: value");
        out.append(values.as_str());
        out.append(" } } }\nunsafe impl");
        out.append(generics.as_str());
        out.append(" Pass<*mut Value> for ");
        out.append(self.name.as_str());
        out.append(generics.as_str());
        out.append(bounds.as_str());
        out.append(" { fn pass(&self) -> *mut Value { self.ptr } }\n");
        out
    }
}

} // verus!
