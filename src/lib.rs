//! Generation of element-wise interfaces over heterogeneous lists.
//!
//! A declaration names a base interface and some of its methods. From it the
//! library emits a derived interface whose methods act on every element of a
//! heterogeneous list (`Cons` cells ending in `Nil`), keeping each element's
//! own result type, with positional access and `all_` / `any_` aggregates for
//! methods that return `bool`.
use vstd::prelude::*;

pub mod cons;
pub mod text;
pub mod generic_param_to_arg;
pub mod trait_hlist_method;
pub mod trait_hlist_input;
pub mod semantics;
pub mod token;
pub mod parse;

pub use cons::{Cons, Nil};
pub use parse::parse_declaration;
pub use token::{Delim, Tok};
pub use generic_param_to_arg::{generic_param_to_arg, GenericParam};
pub use trait_hlist_input::{Declaration, TraitHListInput, TraitItem};
pub use trait_hlist_method::{
    AttrValue, FnArg, GenError, MethodAttr, Pattern, TraitHListMethod, TraitItemFn,
};

verus! {

use crate::parse::{declaration_is, declaration_ok, syntax_at};
use crate::trait_hlist_input::{expand_text, first_error};

/// Generates, for a declaration, the derived interface and its
/// implementations for the empty list and for a cell, as source text.
pub fn expand_declaration(decl: Declaration) -> (r: Result<String, GenError>)
    ensures
        match r {
            Ok(s) => first_error(decl.items@) == None::<GenError> && exists|inp: TraitHListInput|
                inp.from_declaration(decl) && s@ == expand_text(inp),
            Err(e) => first_error(decl.items@) == Some(e),
        },
{
    match TraitHListInput::new(decl) {
        Ok(inp) => Ok(inp.expand()),
        Err(e) => Err(e),
    }
}

/// Parses the tokens of a declaration and generates its derived interface
/// and implementations, as source text.
#[allow(non_snake_case)]
pub fn TraitHList(input: &Vec<Tok>) -> (r: Result<String, GenError>)
    ensures
        !declaration_ok(input@) ==> match r {
            Err(GenError::Syntax { at }) => at == syntax_at(input@) && at <= input@.len(),
            _ => false,
        },
        declaration_ok(input@) ==> exists|d: Declaration|
            declaration_is(input@, d) && match r {
                Ok(s) => first_error(d.items@) == None::<GenError> && exists|inp: TraitHListInput|
                    inp.from_declaration(d) && s@ == expand_text(inp),
                Err(e) => first_error(d.items@) == Some(e),
            },
{
    match parse_declaration(input) {
        Ok(d) => {
            let ghost d0 = d;
            let r = expand_declaration(d);
            assert(declaration_is(input@, d0));
            r
        },
        Err(e) => Err(e),
    }
}

} // verus!
