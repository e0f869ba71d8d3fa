use vstd::prelude::*;

use crate::text::{join, join_strings, texts};

verus! {

/// A declared generic parameter: its use-site name and its full declaration
/// text (bounds and default included).
pub enum GenericParam {
    /// `'a` or `'a: 'b`; `lifetime` is `'a`.
    Lifetime { lifetime: String, decl: String },
    /// `T` or `T: Bound`; `ident` is `T`.
    Type { ident: String, decl: String },
    /// `const N: usize`; `ident` is `N`.
    Const { ident: String, decl: String },
}

/// The argument that names a declared parameter at a use site.
pub open spec fn arg_of(p: GenericParam) -> Seq<char> {
    match p {
        GenericParam::Lifetime { lifetime, .. } => lifetime@,
        GenericParam::Type { ident, .. } => ident@,
        GenericParam::Const { ident, .. } => ident@,
    }
}

/// The text that declares a parameter.
pub open spec fn decl_of(p: GenericParam) -> Seq<char> {
    match p {
        GenericParam::Lifetime { decl, .. } => decl@,
        GenericParam::Type { decl, .. } => decl@,
        GenericParam::Const { decl, .. } => decl@,
    }
}

/// Declarations of `ps`, comma separated, as they stand between angle brackets.
pub open spec fn params_text(ps: Seq<GenericParam>) -> Seq<char> {
    join(ps.map_values(|p: GenericParam| decl_of(p)), ", "@)
}

/// Use-site arguments of `ps`, comma separated.
pub open spec fn args_text(ps: Seq<GenericParam>) -> Seq<char> {
    join(ps.map_values(|p: GenericParam| arg_of(p)), ", "@)
}

impl Clone for GenericParam {
    fn clone(&self) -> (r: Self)
        ensures
            r == *self,
    {
        match self {
            GenericParam::Lifetime { lifetime, decl } => GenericParam::Lifetime {
                lifetime: lifetime.clone(),
                decl: decl.clone(),
            },
            GenericParam::Type { ident, decl } => GenericParam::Type {
                ident: ident.clone(),
                decl: decl.clone(),
            },
            GenericParam::Const { ident, decl } => GenericParam::Const {
                ident: ident.clone(),
                decl: decl.clone(),
            },
        }
    }
}

/// Projects a declared parameter to the argument that names it: a lifetime
/// to its lifetime, a type or const parameter to its identifier.
pub fn generic_param_to_arg(param: GenericParam) -> (r: String)
    ensures
        r@ == arg_of(param),
{
    match param {
        GenericParam::Lifetime { lifetime, .. } => lifetime,
        GenericParam::Type { ident, .. } => ident,
        GenericParam::Const { ident, .. } => ident,
    }
}

/// Declaration text of a parameter.
pub fn generic_param_decl(param: &GenericParam) -> (r: String)
    ensures
        r@ == decl_of(*param),
{
    match param {
        GenericParam::Lifetime { decl, .. } => decl.clone(),
        GenericParam::Type { decl, .. } => decl.clone(),
        GenericParam::Const { decl, .. } => decl.clone(),
    }
}

/// Replays a declared parameter list as its argument list.
pub fn generic_args(params: &Vec<GenericParam>) -> (r: Vec<String>)
    ensures
        texts(r@) == params@.map_values(|p: GenericParam| arg_of(p)),
{
    let mut out: Vec<String> = Vec::new();
    let mut i: usize = 0;
    while i < params.len()
        invariant
            i <= params.len(),
            texts(out@) =~= params@.take(i as int).map_values(|p: GenericParam| arg_of(p)),
        decreases params.len() - i,
    {
        let x = generic_param_to_arg(params[i].clone());
        proof {
            assert(x@ == arg_of(params@[i as int]));
        }
        let ghost before = out@;
        out.push(x);
        proof {
            assert(texts(out@) =~= texts(before).push(x@));
            assert(params@.take(i + 1) =~= params@.take(i as int).push(params@[i as int]));
        }
        i += 1;
    }
    assert(params@.take(params.len() as int) =~= params@);
    assert(texts(out@) =~= params@.map_values(|p: GenericParam| arg_of(p)));
    out
}

/// Declaration texts of a parameter list.
pub fn generic_decls(params: &Vec<GenericParam>) -> (r: Vec<String>)
    ensures
        texts(r@) == params@.map_values(|p: GenericParam| decl_of(p)),
{
    let mut out: Vec<String> = Vec::new();
    let mut i: usize = 0;
    while i < params.len()
        invariant
            i <= params.len(),
            texts(out@) =~= params@.take(i as int).map_values(|p: GenericParam| decl_of(p)),
        decreases params.len() - i,
    {
        let x = generic_param_decl(&params[i]);
        proof {
            assert(x@ == decl_of(params@[i as int]));
        }
        let ghost before = out@;
        out.push(x);
        proof {
            assert(texts(out@) =~= texts(before).push(x@));
            assert(params@.take(i + 1) =~= params@.take(i as int).push(params@[i as int]));
        }
        i += 1;
    }
    assert(params@.take(params.len() as int) =~= params@);
    assert(texts(out@) =~= params@.map_values(|p: GenericParam| decl_of(p)));
    out
}

/// Declarations of `params`, comma separated.
pub fn params_list(params: &Vec<GenericParam>) -> (r: String)
    ensures
        r@ == params_text(params@),
{
    let decls = generic_decls(params);
    join_strings(&decls, ", ")
}

/// Use-site arguments of `params`, comma separated.
pub fn args_list(params: &Vec<GenericParam>) -> (r: String)
    ensures
        r@ == args_text(params@),
{
    let args = generic_args(params);
    join_strings(&args, ", ")
}

} // verus!
