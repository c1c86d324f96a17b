//! A structured Rust source-code emitter.
//!
//! Callers assemble an in-memory model of language constructs (modules,
//! structs, enums, impl blocks, functions, variables, free-form text) and
//! render that model into formatted source text.  Every rendering function
//! carries a contract pinning its output, as a sequence of characters, to a
//! specification function over the construct's fields.

use vstd::prelude::*;

mod file;
pub mod rust_component;
mod rust_enum;
mod rust_impl;
mod rust_method;
mod rust_module;
mod rust_struct;
mod rust_text;
mod rust_trait;
mod rust_variable;

pub use file::RustFile;
pub use rust_enum::EnumVariant;
pub use rust_enum::EnumVariantBuilder;
pub use rust_enum::RustEnum;
pub use rust_impl::RustImplementation;
pub use rust_method::RustMethod;
pub use rust_module::RustModule;
pub use rust_struct::RustStruct;
pub use rust_text::RustText;
pub use rust_trait::RustTrait;
pub use rust_variable::RustVariable;
pub use rust_variable::VariableType;

verus! {

/// One unit of indentation, as a sequence of characters: four spaces.
pub open spec fn indent_unit() -> Seq<char> {
    "    "@
}

/// The indentation prefix for a given nesting level: `level` units.
pub open spec fn indent_text(level: nat) -> Seq<char>
    decreases level,
{
    if level == 0 {
        Seq::empty()
    } else {
        indent_text((level - 1) as nat) + indent_unit()
    }
}

/// Builds the indentation prefix for the given nesting level.
pub fn indent_string(indent_level: usize) -> (res: String)
    ensures
        res@ == indent_text(indent_level as nat),
{
    let mut res = String::new();
    let mut i: usize = 0;
    while i < indent_level
        invariant
            i <= indent_level,
            res@ == indent_text(i as nat),
        decreases indent_level - i,
    {
        res.append("    ");
        i = i + 1;
    }
    res
}

} // verus!
