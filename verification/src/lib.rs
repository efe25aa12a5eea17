//! Bindings from a statically typed host to the objects of a polyglot guest
//! runtime.
//!
//! The crate has two halves. The first reads a small declarative language in
//! which foreign classes, constructors and methods are described, and writes
//! for each of them the source of a binding function: `lexer` and `parser`
//! read the text as `grammar` and `notation` say, `generator` and
//! `aggregate` turn what was read into bindings, and `expand` goes from text
//! to text. The second half is the typed layer that those functions run on:
//! the opaque handles of `handle`, the capabilities of `marshal` that say
//! which values may cross the native boundary, and in `bridge` the native
//! calls that each operation makes of the runtime.
pub mod token;
pub mod lexer;
pub mod stub;
pub mod grammar;
pub mod notation;
pub mod parser;
pub mod text;
pub mod binding;
pub mod generator;
pub mod aggregate;
pub mod expand;
pub mod handle;
pub mod marshal;
pub mod bridge;
pub mod array;
pub mod builtins;
