//! A binding function, before it is written out, and its text.
use vstd::prelude::*;
use vstd::string::*;
use crate::stub::views;
use crate::text::{append_spaced, each_led, join, join_texts, led_texts, spaced};

verus! {

/// The native call in the body of a binding function.
#[derive(Clone, Debug, PartialEq, Eq)]
pub enum NativeCall {
    /// Looks the foreign type up by the dotted name `foreign_type` and asks for
    /// a new instance of it.
    NewInstance { foreign_type: String },
    /// Invokes the foreign method `method` on the handle of `self`.
    Invoke { method: String },
}

/// What a native call is, with characters in place of strings.
pub enum NativeCallView {
    NewInstance { foreign_type: Seq<char> },
    Invoke { method: Seq<char> },
}

impl View for NativeCall {
    type V = NativeCallView;

    open spec fn view(&self) -> NativeCallView {
        match *self {
            NativeCall::NewInstance { foreign_type } => NativeCallView::NewInstance {
                foreign_type: foreign_type@,
            },
            NativeCall::Invoke { method } => NativeCallView::Invoke { method: method@ },
        }
    }
}

/// One binding function.
///
/// `parameters` holds one annotation `name: Type` for each parameter, and
/// `arguments` the names that the native call is handed, both in the order
/// of the declaration. `return_token` is `-> Type`, and `conversion` is what
/// stands before the native call to rebuild a value from its result; both
/// are empty where the function returns nothing.
#[derive(Clone, Debug, PartialEq, Eq)]
pub struct Binding {
    pub name: String,
    pub parameters: Vec<String>,
    pub arguments: Vec<String>,
    pub call: NativeCall,
    pub return_token: String,
    pub conversion: String,
}

/// What a binding function is, with characters in place of strings.
pub struct BindingView {
    pub name: Seq<char>,
    pub parameters: Seq<Seq<char>>,
    pub arguments: Seq<Seq<char>>,
    pub call: NativeCallView,
    pub return_token: Seq<char>,
    pub conversion: Seq<char>,
}

impl View for Binding {
    type V = BindingView;

    open spec fn view(&self) -> BindingView {
        BindingView {
            name: self.name@,
            parameters: views(self.parameters@),
            arguments: views(self.arguments@),
            call: self.call@,
            return_token: self.return_token@,
            conversion: self.conversion@,
        }
    }
}

/// The text of a binding function.
///
/// A method takes `&self` before its parameters and hands the handle of
/// `self`, the foreign name and the arguments to `invoke_method!`. A
/// constructor resolves the foreign type by its dotted name on every call and
/// hands the type and the arguments to `new_instance!`.
pub open spec fn render(binding: BindingView) -> Seq<char> {
    match binding.call {
        NativeCallView::Invoke { method } => "pub fn "@ + binding.name + "(&self"@ + each_led(
            binding.parameters,
            ", "@,
        ) + ")"@ + spaced(binding.return_token) + " { "@ + binding.conversion
            + "(crate::invoke_method!(self.ptr, \""@ + method + "\""@ + each_led(
            binding.arguments,
            ", "@,
        ) + ")); }"@,
        NativeCallView::NewInstance { foreign_type } => "pub fn "@ + binding.name + "("@ + join(
            binding.parameters,
            ", "@,
        ) + ")"@ + spaced(binding.return_token) + " { let polyglot_type = crate::java_type(\""@
            + foreign_type + "\"); "@ + binding.conversion + "(crate::new_instance!(polyglot_type"@
            + each_led(binding.arguments, ", "@) + ")) }"@,
    }
}

impl Binding {
    /// Writes the binding function out.
    pub fn render(&self) -> (out: String)
        ensures
            out@ == render(self@),
    {
        let mut out = String::new();
        out.append("pub fn ");
        out.append(self.name.as_str());
        let passed = led_texts(&self.arguments, ", ");
        match &self.call {
            NativeCall::Invoke { method } => {
                let parameters = led_texts(&self.parameters, ", ");
                out.append("(&self");
                out.append(parameters.as_str());
                out.append(")");
                append_spaced(&mut out, self.return_token.as_str());
                out.append(" { ");
                out.append(self.conversion.as_str());
                out.append("(crate::invoke_method!(self.ptr, \"");
                out.append(method.as_str());
                out.append("\"");
                out.append(passed.as_str());
                out.append(")); }");
            },
            NativeCall::NewInstance { foreign_type } => {
                let parameters = join_texts(&self.parameters, ", ");
                out.append("(");
                out.append(parameters.as_str());
                out.append(")");
                append_spaced(&mut out, self.return_token.as_str());
                out.append(" { let polyglot_type = crate::java_type(\"");
                out.append(foreign_type.as_str());
                out.append("\"); ");
                out.append(self.conversion.as_str());
                out.append("(crate::new_instance!(polyglot_type");
                out.append(passed.as_str());
                out.append(")) }");
            },
        }
        assert(out@ =~= render(self@));
        out
    }
}

} // verus!
