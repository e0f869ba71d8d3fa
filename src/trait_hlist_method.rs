use vstd::prelude::*;

use crate::generic_param_to_arg::{
    args_list, args_text, generic_args, params_list, params_text, arg_of, GenericParam,
};
use crate::text::{join, join_strings, texts};

verus! {

/// Value of a `key = value` method attribute.
pub enum AttrValue {
    /// A path of one identifier, without attributes or qualified self.
    Ident(String),
    /// Any other path without attributes or qualified self (its text).
    Path(String),
    /// Any other expression.
    Other,
}

/// An attribute attached to a declared method.
pub enum MethodAttr {
    /// `#[key = value]`; `key` is the text of the key's path.
    NameValue { key: String, value: AttrValue },
    /// Any other attribute form.
    Other,
}

/// Pattern of a typed method argument.
pub enum Pattern {
    /// An identifier pattern (its text, such as `x` or `mut x`).
    Ident(String),
    /// Any other pattern.
    Other,
}

/// One entry of a method's argument list.
pub enum FnArg {
    /// The receiver, by its text (`self`, `&self`, `&'a mut self`, ...).
    Receiver(String),
    /// A typed argument; `ty` is the text of its type.
    Typed { pat: Pattern, ty: String },
}

/// A method as declared inside the braces of a declaration.
pub struct TraitItemFn {
    pub attrs: Vec<MethodAttr>,
    pub ident: String,
    pub generics: Vec<GenericParam>,
    pub inputs: Vec<FnArg>,
    /// The declared return type, if any.
    pub output: Option<String>,
    /// The method's own where clause, `where` keyword included.
    pub where_clause: Option<String>,
    /// Whether the method carries a default body.
    pub has_default: bool,
}

/// Why a declaration cannot be expanded.
#[derive(PartialEq, Eq, Debug)]
pub enum GenError {
    DefaultBody,
    MultipleAttributes,
    UnsupportedAttribute,
    NameNotIdent,
    UnsupportedPattern { method: String },
    ConstItem,
    TypeItem,
    MacroItem,
    ExtraTokens,
    UnsupportedItem,
    /// The tokens do not follow the declaration grammar; `at` is the
    /// position of the token that starts the offending construct (the
    /// length of the input where the input ends too early).
    Syntax { at: usize },
}

impl GenError {
    /// The diagnostic that reports this refusal.
    pub fn message(&self) -> (r: String)
        ensures
            r@ == error_message(*self),
    {
        match self {
            GenError::DefaultBody => String::from_str("Default implementation is not supported in methods."),
            GenError::MultipleAttributes => String::from_str("Multiple method attributes are not supported."),
            GenError::UnsupportedAttribute => String::from_str(
                "Unsupported method attribute. Try #[name = <other_method_name>] without quotes.",
            ),
            GenError::NameNotIdent => String::from_str("Name must be a simple identifier without path."),
            GenError::UnsupportedPattern { method } => {
                let mut s = String::from_str("Unsupported argument pattern in function '");
                s.append(method.as_str());
                s.append("': only simple identifiers are supported");
                s
            },
            GenError::ConstItem => String::from_str("Const items in traits are not supported."),
            GenError::TypeItem => String::from_str("Type items in traits are not supported."),
            GenError::MacroItem => String::from_str("Macro items in traits are not supported."),
            GenError::ExtraTokens => String::from_str("Extra tokens in traits are not supported."),
            GenError::UnsupportedItem => String::from_str("Unsupported item in trait."),
            GenError::Syntax { .. } => String::from_str(
                "Expected `[pub] Name for trait Base<..> where .. { fn method(..) -> T; .. }`.",
            ),
        }
    }
}

/// Text of the diagnostic for each refusal.
pub open spec fn error_message(e: GenError) -> Seq<char> {
    match e {
        GenError::DefaultBody => "Default implementation is not supported in methods."@,
        GenError::MultipleAttributes => "Multiple method attributes are not supported."@,
        GenError::UnsupportedAttribute =>
            "Unsupported method attribute. Try #[name = <other_method_name>] without quotes."@,
        GenError::NameNotIdent => "Name must be a simple identifier without path."@,
        GenError::UnsupportedPattern { method } => "Unsupported argument pattern in function '"@
            + method@ + "': only simple identifiers are supported"@,
        GenError::ConstItem => "Const items in traits are not supported."@,
        GenError::TypeItem => "Type items in traits are not supported."@,
        GenError::MacroItem => "Macro items in traits are not supported."@,
        GenError::ExtraTokens => "Extra tokens in traits are not supported."@,
        GenError::UnsupportedItem => "Unsupported item in trait."@,
        GenError::Syntax { .. } =>
            "Expected `[pub] Name for trait Base<..> where .. { fn method(..) -> T; .. }`."@,
    }
}

/// The public name of a method, or why its attributes are refused.
pub open spec fn rename_result(attrs: Seq<MethodAttr>, ident: String) -> Result<String, GenError> {
    if attrs.len() == 0 {
        Ok(ident)
    } else if attrs.len() == 1 {
        match attrs[0] {
            MethodAttr::NameValue { key, value } => if key@ == "name"@ {
                match value {
                    AttrValue::Ident(n) => Ok(n),
                    AttrValue::Path(_) => Err(GenError::NameNotIdent),
                    AttrValue::Other => Err(GenError::UnsupportedAttribute),
                }
            } else {
                Err(GenError::UnsupportedAttribute)
            },
            MethodAttr::Other => Err(GenError::UnsupportedAttribute),
        }
    } else {
        Err(GenError::MultipleAttributes)
    }
}

/// A typed argument whose pattern is not an identifier.
pub open spec fn is_unsupported_arg(a: FnArg) -> bool {
    match a {
        FnArg::Typed { pat: Pattern::Other, .. } => true,
        _ => false,
    }
}

/// Why a method item is refused, checked in this order: a default body,
/// its attributes, then its argument patterns.
pub open spec fn method_error(m: TraitItemFn) -> Option<GenError> {
    if m.has_default {
        Some(GenError::DefaultBody)
    } else {
        match rename_result(m.attrs@, m.ident) {
            Err(e) => Some(e),
            Ok(_) => if exists|i: int| 0 <= i < m.inputs@.len() && is_unsupported_arg(#[trigger] m.inputs@[i]) {
                Some(GenError::UnsupportedPattern { method: m.ident })
            } else {
                None
            },
        }
    }
}

/// The public name of an accepted method.
pub open spec fn public_name(m: TraitItemFn) -> Seq<char> {
    match rename_result(m.attrs@, m.ident) {
        Ok(n) => n@,
        Err(_) => m.ident@,
    }
}

/// Text of one argument entry as it stands in a signature.
pub open spec fn input_text(a: FnArg) -> Seq<char> {
    match a {
        FnArg::Receiver(t) => t@,
        FnArg::Typed { pat: Pattern::Ident(n), ty } => n@ + ": "@ + ty@,
        FnArg::Typed { pat: Pattern::Other, ty } => ty@,
    }
}

/// Texts of all argument entries, receiver included.
pub open spec fn input_texts(inputs: Seq<FnArg>) -> Seq<Seq<char>> {
    inputs.map_values(|a: FnArg| input_text(a))
}

/// How a by-value argument is handed to one element: a reference is passed
/// on as it is, any other type is cloned.
pub open spec fn cloned_arg(name: Seq<char>, ty: Seq<char>) -> Seq<char> {
    if ty.len() > 0 && ty[0] == '&' {
        name
    } else {
        "Clone::clone(&"@ + name + ")"@
    }
}

/// Names of the non-receiver arguments, in order.
pub open spec fn call_args(inputs: Seq<FnArg>) -> Seq<Seq<char>>
    decreases inputs.len(),
{
    if inputs.len() == 0 {
        Seq::empty()
    } else {
        let rest = call_args(inputs.drop_last());
        match inputs.last() {
            FnArg::Typed { pat: Pattern::Ident(n), .. } => rest.push(n@),
            _ => rest,
        }
    }
}

/// The non-receiver arguments as handed to the head element.
pub open spec fn cloned_args(inputs: Seq<FnArg>) -> Seq<Seq<char>>
    decreases inputs.len(),
{
    if inputs.len() == 0 {
        Seq::empty()
    } else {
        let rest = cloned_args(inputs.drop_last());
        match inputs.last() {
            FnArg::Typed { pat: Pattern::Ident(n), ty } => rest.push(cloned_arg(n@, ty@)),
            _ => rest,
        }
    }
}

/// Element-level return type: the declared one, or the unit type.
pub open spec fn output_of(output: Option<String>) -> Seq<char> {
    match output {
        Some(t) => t@,
        None => "()"@,
    }
}

/// Return-type part of a signature that keeps the declared output.
pub open spec fn declared_ret(output: Option<String>) -> Seq<char> {
    match output {
        Some(t) => " -> "@ + t@,
        None => Seq::empty(),
    }
}

/// A where clause preceded by a space, or nothing.
pub open spec fn where_text(w: Option<String>) -> Seq<char> {
    match w {
        Some(t) => " "@ + t@,
        None => Seq::empty(),
    }
}

/// A method signature.
pub open spec fn sig_text(
    name: Seq<char>,
    generics: Seq<GenericParam>,
    inputs: Seq<Seq<char>>,
    ret: Seq<char>,
    where_clause: Option<String>,
) -> Seq<char> {
    "fn "@ + name + "<"@ + params_text(generics) + ">("@ + join(inputs, ", "@) + ")"@ + ret
        + where_text(where_clause)
}

/// Return-type part of the lifted signature.
pub open spec fn lifted_ret(output_ident: Seq<char>, generics: Seq<GenericParam>) -> Seq<char> {
    " -> Self::"@ + output_ident + "<"@ + args_text(generics) + ">"@
}

/// Name of the per-method associated output type, from the uppercased
/// method name.
pub open spec fn output_ident_text(upper: Seq<char>) -> Seq<char> {
    upper + "HListOutput"@
}

pub uninterp spec fn upper_of(s: Seq<char>) -> Seq<char>;

/// Relies on `str::to_uppercase`: the result depends on the characters alone.
#[verifier::external_body]
fn to_upper(s: &str) -> (r: String)
    ensures
        r@ == upper_of(s@),
{
    s.to_uppercase()
}

/// The public name of a method from its attributes.
fn rename(attrs: &Vec<MethodAttr>, ident: &String) -> (r: Result<String, GenError>)
    ensures
        r == rename_result(attrs@, *ident),
{
    if attrs.len() == 0 {
        Ok(ident.clone())
    } else if attrs.len() == 1 {
        match &attrs[0] {
            MethodAttr::NameValue { key, value } => {
                if *key == String::from_str("name") {
                    match value {
                        AttrValue::Ident(n) => Ok(n.clone()),
                        AttrValue::Path(_) => Err(GenError::NameNotIdent),
                        AttrValue::Other => Err(GenError::UnsupportedAttribute),
                    }
                } else {
                    Err(GenError::UnsupportedAttribute)
                }
            },
            MethodAttr::Other => Err(GenError::UnsupportedAttribute),
        }
    } else {
        Err(GenError::MultipleAttributes)
    }
}

/// Whether some typed argument has a pattern other than an identifier.
fn has_unsupported_arg(inputs: &Vec<FnArg>) -> (r: bool)
    ensures
        r == exists|i: int| 0 <= i < inputs@.len() && is_unsupported_arg(#[trigger] inputs@[i]),
{
    let mut i: usize = 0;
    while i < inputs.len()
        invariant
            i <= inputs.len(),
            forall|j: int| 0 <= j < i ==> !is_unsupported_arg(#[trigger] inputs@[j]),
        decreases inputs.len() - i,
    {
        match &inputs[i] {
            FnArg::Typed { pat: Pattern::Other, .. } => {
                return true;
            },
            _ => {},
        }
        i += 1;
    }
    false
}

/// Whether a type text starts with `&`.
fn is_reference_text(ty: &String) -> (r: bool)
    ensures
        r == (ty@.len() > 0 && ty@[0] == '&'),
{
    let t = ty.as_str();
    t.unicode_len() > 0 && t.get_char(0) == '&'
}

/// Text of one argument entry.
fn render_input(a: &FnArg) -> (r: String)
    ensures
        r@ == input_text(*a),
{
    match a {
        FnArg::Receiver(t) => t.clone(),
        FnArg::Typed { pat: Pattern::Ident(n), ty } => {
            let mut s = n.clone();
            s.append(": ");
            s.append(ty.as_str());
            s
        },
        FnArg::Typed { pat: Pattern::Other, ty } => ty.clone(),
    }
}

/// Signature texts of all entries, names of the non-receiver arguments, and
/// those names as handed to the head element.
fn lower_inputs(inputs: &Vec<FnArg>) -> (r: (Vec<String>, Vec<String>, Vec<String>))
    ensures
        texts(r.0@) == input_texts(inputs@),
        texts(r.1@) == call_args(inputs@),
        texts(r.2@) == cloned_args(inputs@),
{
    let mut sigs: Vec<String> = Vec::new();
    let mut args: Vec<String> = Vec::new();
    let mut cloned: Vec<String> = Vec::new();
    let mut i: usize = 0;
    while i < inputs.len()
        invariant
            i <= inputs.len(),
            texts(sigs@) == input_texts(inputs@.take(i as int)),
            texts(args@) == call_args(inputs@.take(i as int)),
            texts(cloned@) == cloned_args(inputs@.take(i as int)),
        decreases inputs.len() - i,
    {
        let ghost pre = inputs@.take(i as int);
        let ghost cur = inputs@.take(i + 1);
        assert(cur.drop_last() =~= pre);
        assert(cur.last() == inputs@[i as int]);
        let ghost sigs0 = sigs@;
        let ghost args0 = args@;
        let ghost cloned0 = cloned@;
        let t = render_input(&inputs[i]);
        sigs.push(t);
        assert(cur =~= pre.push(inputs@[i as int]));
        assert(texts(sigs@) =~= texts(sigs0).push(input_text(inputs@[i as int])));
        assert(texts(sigs@) =~= input_texts(cur));
        match &inputs[i] {
            FnArg::Typed { pat: Pattern::Ident(n), ty } => {
                args.push(n.clone());
                let c = if is_reference_text(ty) {
                    n.clone()
                } else {
                    let mut c = String::from_str("Clone::clone(&");
                    c.append(n.as_str());
                    c.append(")");
                    c
                };
                assert(c@ == cloned_arg(n@, ty@));
                cloned.push(c);
                assert(texts(args@) =~= texts(args0).push(n@));
                assert(texts(cloned@) =~= texts(cloned0).push(cloned_arg(n@, ty@)));
            },
            _ => {},
        }
        i += 1;
    }
    assert(inputs@.take(inputs.len() as int) =~= inputs@);
    (sigs, args, cloned)
}

/// Renders a method signature.
fn render_sig(
    name: &str,
    generics: &Vec<GenericParam>,
    inputs: &Vec<String>,
    ret: &str,
    where_clause: &Option<String>,
) -> (r: String)
    ensures
        r@ == sig_text(name@, generics@, texts(inputs@), ret@, *where_clause),
{
    let mut s = String::from_str("fn ");
    s.append(name);
    s.append("<");
    let ps = params_list(generics);
    s.append(ps.as_str());
    s.append(">(");
    let ins = join_strings(inputs, ", ");
    s.append(ins.as_str());
    s.append(")");
    s.append(ret);
    match where_clause {
        Some(w) => {
            s.append(" ");
            s.append(w.as_str());
        },
        None => {},
    }
    assert(s@ =~= sig_text(name@, generics@, texts(inputs@), ret@, *where_clause));
    s
}

/// `prefix` followed by `s`.
fn prefixed(prefix: &str, s: &String) -> (r: String)
    ensures
        r@ == prefix@ + s@,
{
    let mut r = String::from_str(prefix);
    r.append(s.as_str());
    r
}

/// `s` followed by `suffix`.
fn suffixed(s: &String, suffix: &str) -> (r: String)
    ensures
        r@ == s@ + suffix@,
{
    let mut r = s.clone();
    r.append(suffix);
    r
}

/// Derived description of one declared method.
pub struct TraitHListMethod {
    pub item_fn_ident: String,
    pub hlist_fn_ident: String,
    pub hlist_fn_ident_at_index: String,
    pub hlist_fn_ident_all: Option<String>,
    pub hlist_fn_ident_any: Option<String>,
    pub hlist_fn_sig: String,
    pub hlist_fn_sig_at_index: String,
    pub hlist_fn_sig_all: Option<String>,
    pub hlist_fn_sig_any: Option<String>,
    pub item_output: String,
    pub item_generic_params: Vec<GenericParam>,
    pub item_generic_args: Vec<String>,
    pub item_where_clause: Option<String>,
    pub hlist_output_ident: String,
    pub args: Vec<String>,
    pub args_cloned: Vec<String>,
}

/// Whether an element-level return type is the plain `bool` type.
pub open spec fn is_bool_text(t: Seq<char>) -> bool {
    t == "bool"@
}

impl TraitHListMethod {
    /// What a descriptor of `m` holds, given the uppercased method name.
    pub open spec fn describes(self, m: TraitItemFn, upper: Seq<char>) -> bool {
        let name = public_name(m);
        let out_ident = output_ident_text(upper);
        let inputs = input_texts(m.inputs@);
        let is_bool = is_bool_text(output_of(m.output));
        &&& self.item_fn_ident == m.ident
        &&& self.hlist_fn_ident@ == name
        &&& self.hlist_fn_ident_at_index@ == name + "_at_index"@
        &&& self.item_output@ == output_of(m.output)
        &&& self.hlist_output_ident@ == out_ident
        &&& self.item_generic_params@ == m.generics@
        &&& texts(self.item_generic_args@) == m.generics@.map_values(|p: GenericParam| arg_of(p))
        &&& self.item_where_clause == m.where_clause
        &&& texts(self.args@) == call_args(m.inputs@)
        &&& texts(self.args_cloned@) == cloned_args(m.inputs@)
        &&& self.hlist_fn_sig@ == sig_text(
            name,
            m.generics@,
            inputs,
            lifted_ret(out_ident, m.generics@),
            m.where_clause,
        )
        &&& self.hlist_fn_sig_at_index@ == sig_text(
            name + "_at_index"@,
            m.generics@,
            inputs.push("__hlist_index: usize"@),
            declared_ret(m.output),
            m.where_clause,
        )
        &&& match self.hlist_fn_ident_all {
            Some(n) => is_bool && n@ == "all_"@ + name,
            None => !is_bool,
        }
        &&& match self.hlist_fn_ident_any {
            Some(n) => is_bool && n@ == "any_"@ + name,
            None => !is_bool,
        }
        &&& match self.hlist_fn_sig_all {
            Some(s) => is_bool && s@ == sig_text(
                "all_"@ + name,
                m.generics@,
                inputs,
                " -> bool"@,
                m.where_clause,
            ),
            None => !is_bool,
        }
        &&& match self.hlist_fn_sig_any {
            Some(s) => is_bool && s@ == sig_text(
                "any_"@ + name,
                m.generics@,
                inputs,
                " -> bool"@,
                m.where_clause,
            ),
            None => !is_bool,
        }
    }
    /// Builds the descriptor of `item`, given its name already uppercased.
    pub fn with_output_name(item: TraitItemFn, upper: String) -> (r: Result<Self, GenError>)
        ensures
            match r {
                Ok(d) => method_error(item) == None::<GenError> && d.describes(item, upper@),
                Err(e) => method_error(item) == Some(e),
            },
    {
        if item.has_default {
            return Err(GenError::DefaultBody);
        }
        let name = match rename(&item.attrs, &item.ident) {
            Ok(n) => n,
            Err(e) => {
                return Err(e);
            },
        };
        if has_unsupported_arg(&item.inputs) {
            return Err(GenError::UnsupportedPattern { method: item.ident.clone() });
        }
        let (mut inputs, args, args_cloned) = lower_inputs(&item.inputs);
        let item_output = match &item.output {
            Some(t) => t.clone(),
            None => String::from_str("()"),
        };
        let is_bool = item_output == String::from_str("bool");
        let hlist_output_ident = suffixed(&upper, "HListOutput");
        let item_generic_args = generic_args(&item.generics);

        let mut ret = String::from_str(" -> Self::");
        ret.append(hlist_output_ident.as_str());
        ret.append("<");
        let lifted_args = args_list(&item.generics);
        ret.append(lifted_args.as_str());
        ret.append(">");
        assert(ret@ =~= lifted_ret(hlist_output_ident@, item.generics@));
        let hlist_fn_sig = render_sig(
            name.as_str(),
            &item.generics,
            &inputs,
            ret.as_str(),
            &item.where_clause,
        );

        let (hlist_fn_ident_all, hlist_fn_ident_any, hlist_fn_sig_all, hlist_fn_sig_any) = if is_bool {
            let all = prefixed("all_", &name);
            let any = prefixed("any_", &name);
            let sig_all = render_sig(
                all.as_str(),
                &item.generics,
                &inputs,
                " -> bool",
                &item.where_clause,
            );
            let sig_any = render_sig(
                any.as_str(),
                &item.generics,
                &inputs,
                " -> bool",
                &item.where_clause,
            );
            (Some(all), Some(any), Some(sig_all), Some(sig_any))
        } else {
            (None, None, None, None)
        };

        let hlist_fn_ident_at_index = suffixed(&name, "_at_index");
        let declared = match &item.output {
            Some(t) => prefixed(" -> ", t),
            None => String::new(),
        };
        assert(declared@ =~= declared_ret(item.output));
        let ghost inputs0 = texts(inputs@);
        inputs.push(String::from_str("__hlist_index: usize"));
        assert(texts(inputs@) =~= inputs0.push("__hlist_index: usize"@));
        let hlist_fn_sig_at_index = render_sig(
            hlist_fn_ident_at_index.as_str(),
            &item.generics,
            &inputs,
            declared.as_str(),
            &item.where_clause,
        );

        Ok(TraitHListMethod {
            item_fn_ident: item.ident,
            hlist_fn_ident: name,
            hlist_fn_ident_at_index,
            hlist_fn_ident_all,
            hlist_fn_ident_any,
            hlist_fn_sig,
            hlist_fn_sig_at_index,
            hlist_fn_sig_all,
            hlist_fn_sig_any,
            item_output,
            item_generic_params: item.generics,
            item_generic_args,
            item_where_clause: item.where_clause,
            hlist_output_ident,
            args,
            args_cloned,
        })
    }

    /// Builds the descriptor of a declared method, or says why the method
    /// is refused.
    pub fn new(item: TraitItemFn) -> (r: Result<Self, GenError>)
        ensures
            match r {
                Ok(d) => method_error(item) == None::<GenError> && d.describes(
                    item,
                    upper_of(item.ident@),
                ),
                Err(e) => method_error(item) == Some(e),
            },
    {
        let upper = to_upper(item.ident.as_str());
        Self::with_output_name(item, upper)
    }
}

/// A rename directive `#[name = x]` added to a method that has no
/// attribute changes neither whether the method is accepted nor any part of
/// it but its public name, which becomes `x`.
pub proof fn lemma_rename_directive(m: TraitItemFn, m2: TraitItemFn, key: String, x: String)
    requires
        m.attrs@.len() == 0,
        m2.attrs@ == seq![MethodAttr::NameValue { key, value: AttrValue::Ident(x) }],
        key@ == "name"@,
        m2.ident == m.ident,
        m2.generics@ == m.generics@,
        m2.inputs@ == m.inputs@,
        m2.output == m.output,
        m2.where_clause == m.where_clause,
        m2.has_default == m.has_default,
    ensures
        method_error(m2) == method_error(m),
        public_name(m) == m.ident@,
        public_name(m2) == x@,
{
}

} // verus!
