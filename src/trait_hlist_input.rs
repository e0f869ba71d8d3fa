use vstd::prelude::*;

use crate::generic_param_to_arg::{
    args_list, args_text, decl_of, generic_param_decl, params_list, params_text, GenericParam,
};
use crate::text::{concat, join, join_strings, lemma_concat_step, texts};
use crate::trait_hlist_method::{
    method_error, upper_of, where_text, GenError, TraitHListMethod, TraitItemFn,
};

verus! {

/// An item inside the braces of a declaration.
pub enum TraitItem {
    Fn(TraitItemFn),
    Const,
    Type,
    Macro,
    Verbatim,
    Other,
}

/// A declaration `[pub] Name for trait Base<params> where ... { items }`,
/// its parts given as plain values.
pub struct Declaration {
    pub vis: bool,
    pub hlist_trait: String,
    pub base_trait: String,
    pub trait_generic_params: Vec<GenericParam>,
    /// The interface-level where clause, `where` keyword included.
    pub trait_where_clause: Option<String>,
    pub items: Vec<TraitItem>,
}

/// A declaration whose methods have all been described.
pub struct TraitHListInput {
    pub vis: bool,
    pub hlist_trait: String,
    pub base_trait: String,
    pub trait_generic_params: Vec<GenericParam>,
    pub trait_where_clause: Option<String>,
    pub methods: Vec<TraitHListMethod>,
}

/// Why one item is refused, if it is.
pub open spec fn item_error(it: TraitItem) -> Option<GenError> {
    match it {
        TraitItem::Fn(f) => method_error(f),
        TraitItem::Const => Some(GenError::ConstItem),
        TraitItem::Type => Some(GenError::TypeItem),
        TraitItem::Macro => Some(GenError::MacroItem),
        TraitItem::Verbatim => Some(GenError::ExtraTokens),
        TraitItem::Other => Some(GenError::UnsupportedItem),
    }
}

/// The refusal of the first refused item, if any.
pub open spec fn first_error(items: Seq<TraitItem>) -> Option<GenError>
    decreases items.len(),
{
    if items.len() == 0 {
        None
    } else {
        match item_error(items[0]) {
            Some(e) => Some(e),
            None => first_error(items.drop_first()),
        }
    }
}

/// Whether `d` describes the method item `it`.
pub open spec fn describes_item(d: TraitHListMethod, it: TraitItem) -> bool {
    match it {
        TraitItem::Fn(f) => d.describes(f, upper_of(f.ident@)),
        _ => false,
    }
}

/// The kinds of text that each method contributes to the generated unit.
#[derive(Clone, Copy)]
pub enum Piece {
    /// Associated output type and lifted signature, in the derived interface.
    MethodDef,
    /// At-index signature, in the derived interface.
    AtIndexDef,
    /// `all_` and `any_` signatures, in the derived interface.
    BoolDefs,
    /// Output type and lifted method, for the empty list.
    NilImpl,
    /// At-index method, for the empty list.
    NilAtIndex,
    /// `all_` and `any_` methods, for the empty list.
    NilBool,
    /// Output type and lifted method, for a cell.
    ConsImpl,
    /// At-index method, for a cell.
    ConsAtIndex,
    /// `all_` and `any_` methods, for a cell.
    ConsBool,
}

/// Strings of `v`, comma separated.
pub open spec fn list_text(v: Seq<String>) -> Seq<char> {
    join(texts(v), ", "@)
}

/// Associated output type with its generics and where clause, as in `type X<..> where ..`.
pub open spec fn output_decl(m: TraitHListMethod) -> Seq<char> {
    "type "@ + m.hlist_output_ident@ + "<"@ + params_text(m.item_generic_params@) + ">"@
}

/// Opening of a cell body that splits the list into head and tail.
pub open spec fn split_cell() -> Seq<char> {
    " { let hlist2::Cons(__hlist_head, __hlist_tail) = self; "@
}

/// Call of the base method on the head, with the given arguments.
pub open spec fn head_call(m: TraitHListMethod, args: Seq<char>) -> Seq<char> {
    "__hlist_head."@ + m.item_fn_ident@ + "("@ + args + ")"@
}

/// The text that `m` contributes under `kind`.
pub open spec fn piece_text(kind: Piece, m: TraitHListMethod) -> Seq<char> {
    let w = where_text(m.item_where_clause);
    let args = list_text(m.args@);
    let cloned = list_text(m.args_cloned@);
    match kind {
        Piece::MethodDef => output_decl(m) + w + "; "@ + m.hlist_fn_sig@ + "; "@,
        Piece::AtIndexDef => m.hlist_fn_sig_at_index@ + "; "@,
        Piece::BoolDefs => match (m.hlist_fn_sig_all, m.hlist_fn_sig_any) {
            (Some(a), Some(b)) => a@ + "; "@ + b@ + "; "@,
            _ => Seq::empty(),
        },
        Piece::NilImpl => output_decl(m) + " = hlist2::Nil"@ + w + "; "@ + m.hlist_fn_sig@
            + " { hlist2::Nil } "@,
        Piece::NilAtIndex => m.hlist_fn_sig_at_index@
            + " { panic!(\"Index out of bounds, expected {__hlist_index} more items in the list.\") } "@,
        Piece::NilBool => match (m.hlist_fn_sig_all, m.hlist_fn_sig_any) {
            (Some(a), Some(b)) => a@ + " { true } "@ + b@ + " { false } "@,
            _ => Seq::empty(),
        },
        Piece::ConsImpl => output_decl(m) + " = hlist2::Cons<"@ + m.item_output@
            + ", __HListTail::"@ + m.hlist_output_ident@ + "<"@ + list_text(
            m.item_generic_args@,
        ) + ">>"@ + w + "; "@ + m.hlist_fn_sig@ + split_cell() + "hlist2::Cons("@ + head_call(
            m,
            cloned,
        ) + ", __hlist_tail."@ + m.hlist_fn_ident@ + "("@ + args + ")) } "@,
        Piece::ConsAtIndex => m.hlist_fn_sig_at_index@ + split_cell()
            + "if __hlist_index == 0 { "@ + head_call(m, args) + " } else { __hlist_tail."@
            + m.hlist_fn_ident_at_index@ + "("@ + join(
            texts(m.args@).push("__hlist_index - 1"@),
            ", "@,
        ) + ") } } "@,
        Piece::ConsBool => match (
            m.hlist_fn_sig_all,
            m.hlist_fn_sig_any,
            m.hlist_fn_ident_all,
            m.hlist_fn_ident_any,
        ) {
            (Some(a), Some(b), Some(na), Some(nb)) => a@ + split_cell() + head_call(m, cloned)
                + " && __hlist_tail."@ + na@ + "("@ + args + ") } "@ + b@ + split_cell()
                + head_call(m, cloned) + " || __hlist_tail."@ + nb@ + "("@ + args + ") } "@,
            _ => Seq::empty(),
        },
    }
}

/// The texts that all of `ms` contribute under `kind`, in order.
pub open spec fn section_text(kind: Piece, ms: Seq<TraitHListMethod>) -> Seq<char> {
    concat(ms.map_values(|m: TraitHListMethod| piece_text(kind, m)))
}

/// Parameter declarations, each followed by a comma.
pub open spec fn leading_params_text(ps: Seq<GenericParam>) -> Seq<char> {
    concat(ps.map_values(|p: GenericParam| decl_of(p) + ", "@))
}

/// Visibility of the derived interface.
pub open spec fn vis_text(vis: bool) -> Seq<char> {
    if vis {
        "pub "@
    } else {
        Seq::empty()
    }
}

/// The derived interface declaration.
pub open spec fn interface_text(inp: TraitHListInput) -> Seq<char> {
    let ms = inp.methods@;
    vis_text(inp.vis) + "trait "@ + inp.hlist_trait@ + "<"@ + params_text(inp.trait_generic_params@)
        + ">"@ + where_text(inp.trait_where_clause) + " { "@ + section_text(Piece::MethodDef, ms)
        + section_text(Piece::AtIndexDef, ms) + section_text(Piece::BoolDefs, ms) + "} "@
}

/// The implementation of the derived interface for the empty list.
pub open spec fn nil_impl_text(inp: TraitHListInput) -> Seq<char> {
    let ms = inp.methods@;
    "#[allow(unused_variables)] impl<"@ + params_text(inp.trait_generic_params@) + "> "@
        + inp.hlist_trait@ + "<"@ + args_text(inp.trait_generic_params@) + "> for hlist2::Nil"@
        + where_text(inp.trait_where_clause) + " { "@ + section_text(Piece::NilImpl, ms)
        + section_text(Piece::NilAtIndex, ms) + section_text(Piece::NilBool, ms) + "} "@
}

/// The implementation of the derived interface for a cell whose head has the
/// base interface and whose tail has the derived one.
pub open spec fn cons_impl_text(inp: TraitHListInput) -> Seq<char> {
    let ms = inp.methods@;
    let a = args_text(inp.trait_generic_params@);
    "impl<"@ + leading_params_text(inp.trait_generic_params@) + "__HListHead: "@ + inp.base_trait@
        + "<"@ + a + ">, __HListTail: "@ + inp.hlist_trait@ + "<"@ + a + ">> "@ + inp.hlist_trait@
        + "<"@ + a + "> for hlist2::Cons<__HListHead, __HListTail>"@ + where_text(
        inp.trait_where_clause,
    ) + " { "@ + section_text(Piece::ConsImpl, ms) + section_text(Piece::ConsAtIndex, ms)
        + section_text(Piece::ConsBool, ms) + "}"@
}

/// The whole generated unit.
pub open spec fn expand_text(inp: TraitHListInput) -> Seq<char> {
    interface_text(inp) + nil_impl_text(inp) + cons_impl_text(inp)
}

/// A where clause preceded by a space, or nothing.
fn where_string(w: &Option<String>) -> (r: String)
    ensures
        r@ == where_text(*w),
{
    match w {
        Some(t) => {
            let mut s = String::from_str(" ");
            s.append(t.as_str());
            s
        },
        None => String::new(),
    }
}

fn output_decl_string(m: &TraitHListMethod) -> (r: String)
    ensures
        r@ == output_decl(*m),
{
    let mut s = String::from_str("type ");
    s.append(m.hlist_output_ident.as_str());
    s.append("<");
    let ps = params_list(&m.item_generic_params);
    s.append(ps.as_str());
    s.append(">");
    assert(s@ =~= output_decl(*m));
    s
}

fn head_call_string(m: &TraitHListMethod, args: &String) -> (r: String)
    ensures
        r@ == head_call(*m, args@),
{
    let mut s = String::from_str("__hlist_head.");
    s.append(m.item_fn_ident.as_str());
    s.append("(");
    s.append(args.as_str());
    s.append(")");
    assert(s@ =~= head_call(*m, args@));
    s
}

/// `args` followed by the decremented index, for the call on the tail.
fn with_index_arg(args: &Vec<String>) -> (r: Vec<String>)
    ensures
        texts(r@) == texts(args@).push("__hlist_index - 1"@),
{
    let mut out: Vec<String> = Vec::new();
    let mut i: usize = 0;
    while i < args.len()
        invariant
            i <= args.len(),
            texts(out@) =~= texts(args@.take(i as int)),
        decreases args.len() - i,
    {
        let ghost before = out@;
        out.push(args[i].clone());
        assert(texts(out@) =~= texts(before).push(args@[i as int]@));
        assert(args@.take(i + 1) =~= args@.take(i as int).push(args@[i as int]));
        i += 1;
    }
    assert(args@.take(args.len() as int) =~= args@);
    let ghost before = out@;
    out.push(String::from_str("__hlist_index - 1"));
    assert(texts(out@) =~= texts(before).push("__hlist_index - 1"@));
    out
}

/// Renders the text that `m` contributes under `kind`.
fn render_piece(kind: Piece, m: &TraitHListMethod) -> (r: String)
    ensures
        r@ == piece_text(kind, *m),
{
    let w = where_string(&m.item_where_clause);
    let args = join_strings(&m.args, ", ");
    let cloned = join_strings(&m.args_cloned, ", ");
    let mut s = String::new();
    match kind {
        Piece::MethodDef => {
            let d = output_decl_string(m);
            s.append(d.as_str());
            s.append(w.as_str());
            s.append("; ");
            s.append(m.hlist_fn_sig.as_str());
            s.append("; ");
        },
        Piece::AtIndexDef => {
            s.append(m.hlist_fn_sig_at_index.as_str());
            s.append("; ");
        },
        Piece::BoolDefs => match (&m.hlist_fn_sig_all, &m.hlist_fn_sig_any) {
            (Some(a), Some(b)) => {
                s.append(a.as_str());
                s.append("; ");
                s.append(b.as_str());
                s.append("; ");
            },
            _ => {},
        },
        Piece::NilImpl => {
            let d = output_decl_string(m);
            s.append(d.as_str());
            s.append(" = hlist2::Nil");
            s.append(w.as_str());
            s.append("; ");
            s.append(m.hlist_fn_sig.as_str());
            s.append(" { hlist2::Nil } ");
        },
        Piece::NilAtIndex => {
            s.append(m.hlist_fn_sig_at_index.as_str());
            s.append(
                " { panic!(\"Index out of bounds, expected {__hlist_index} more items in the list.\") } ",
            );
        },
        Piece::NilBool => match (&m.hlist_fn_sig_all, &m.hlist_fn_sig_any) {
            (Some(a), Some(b)) => {
                s.append(a.as_str());
                s.append(" { true } ");
                s.append(b.as_str());
                s.append(" { false } ");
            },
            _ => {},
        },
        Piece::ConsImpl => {
            let d = output_decl_string(m);
            s.append(d.as_str());
            s.append(" = hlist2::Cons<");
            s.append(m.item_output.as_str());
            s.append(", __HListTail::");
            s.append(m.hlist_output_ident.as_str());
            s.append("<");
            let ga = join_strings(&m.item_generic_args, ", ");
            s.append(ga.as_str());
            s.append(">>");
            s.append(w.as_str());
            s.append("; ");
            s.append(m.hlist_fn_sig.as_str());
            s.append(" { let hlist2::Cons(__hlist_head, __hlist_tail) = self; ");
            s.append("hlist2::Cons(");
            let h = head_call_string(m, &cloned);
            s.append(h.as_str());
            s.append(", __hlist_tail.");
            s.append(m.hlist_fn_ident.as_str());
            s.append("(");
            s.append(args.as_str());
            s.append(")) } ");
        },
        Piece::ConsAtIndex => {
            s.append(m.hlist_fn_sig_at_index.as_str());
            s.append(" { let hlist2::Cons(__hlist_head, __hlist_tail) = self; ");
            s.append("if __hlist_index == 0 { ");
            let h = head_call_string(m, &args);
            s.append(h.as_str());
            s.append(" } else { __hlist_tail.");
            s.append(m.hlist_fn_ident_at_index.as_str());
            s.append("(");
            let tail_args = with_index_arg(&m.args);
            let ta = join_strings(&tail_args, ", ");
            s.append(ta.as_str());
            s.append(") } } ");
        },
        Piece::ConsBool => match (
            &m.hlist_fn_sig_all,
            &m.hlist_fn_sig_any,
            &m.hlist_fn_ident_all,
            &m.hlist_fn_ident_any,
        ) {
            (Some(a), Some(b), Some(na), Some(nb)) => {
                let h = head_call_string(m, &cloned);
                s.append(a.as_str());
                s.append(" { let hlist2::Cons(__hlist_head, __hlist_tail) = self; ");
                s.append(h.as_str());
                s.append(" && __hlist_tail.");
                s.append(na.as_str());
                s.append("(");
                s.append(args.as_str());
                s.append(") } ");
                s.append(b.as_str());
                s.append(" { let hlist2::Cons(__hlist_head, __hlist_tail) = self; ");
                s.append(h.as_str());
                s.append(" || __hlist_tail.");
                s.append(nb.as_str());
                s.append("(");
                s.append(args.as_str());
                s.append(") } ");
            },
            _ => {},
        },
    }
    assert(s@ =~= piece_text(kind, *m));
    s
}

/// Renders the texts that all of `ms` contribute under `kind`.
fn render_section(kind: Piece, ms: &Vec<TraitHListMethod>) -> (r: String)
    ensures
        r@ == section_text(kind, ms@),
{
    let ghost f = |m: TraitHListMethod| piece_text(kind, m);
    let mut out = String::new();
    let mut i: usize = 0;
    while i < ms.len()
        invariant
            i <= ms.len(),
            f == (|m: TraitHListMethod| piece_text(kind, m)),
            out@ == concat(ms@.take(i as int).map_values(f)),
        decreases ms.len() - i,
    {
        let t = render_piece(kind, &ms[i]);
        out.append(t.as_str());
        proof {
            lemma_concat_step(ms@, f, i as int);
        }
        i += 1;
    }
    assert(ms@.take(ms.len() as int) =~= ms@);
    out
}

/// Parameter declarations, each followed by a comma.
fn leading_params(ps: &Vec<GenericParam>) -> (r: String)
    ensures
        r@ == leading_params_text(ps@),
{
    let ghost f = |p: GenericParam| decl_of(p) + ", "@;
    let mut out = String::new();
    let mut i: usize = 0;
    while i < ps.len()
        invariant
            i <= ps.len(),
            f == (|p: GenericParam| decl_of(p) + ", "@),
            out@ == concat(ps@.take(i as int).map_values(f)),
        decreases ps.len() - i,
    {
        let d = generic_param_decl(&ps[i]);
        out.append(d.as_str());
        out.append(", ");
        proof {
            lemma_concat_step(ps@, f, i as int);
        }
        i += 1;
    }
    assert(ps@.take(ps.len() as int) =~= ps@);
    out
}

impl TraitHListInput {
    fn interface_string(&self) -> (r: String)
        ensures
            r@ == interface_text(*self),
    {
        let ps = params_list(&self.trait_generic_params);
        let w = where_string(&self.trait_where_clause);
        let ms = &self.methods;
        let mut s = String::new();
        if self.vis {
            s.append("pub ");
        }
        s.append("trait ");
        s.append(self.hlist_trait.as_str());
        s.append("<");
        s.append(ps.as_str());
        s.append(">");
        s.append(w.as_str());
        s.append(" { ");
        let t = render_section(Piece::MethodDef, ms);
        s.append(t.as_str());
        let t = render_section(Piece::AtIndexDef, ms);
        s.append(t.as_str());
        let t = render_section(Piece::BoolDefs, ms);
        s.append(t.as_str());
        s.append("} ");
        assert(s@ =~= interface_text(*self));
        s
    }

    fn nil_impl_string(&self) -> (r: String)
        ensures
            r@ == nil_impl_text(*self),
    {
        let ps = params_list(&self.trait_generic_params);
        let a = args_list(&self.trait_generic_params);
        let w = where_string(&self.trait_where_clause);
        let ms = &self.methods;
        let mut s = String::from_str("#[allow(unused_variables)] impl<");
        s.append(ps.as_str());
        s.append("> ");
        s.append(self.hlist_trait.as_str());
        s.append("<");
        s.append(a.as_str());
        s.append("> for hlist2::Nil");
        s.append(w.as_str());
        s.append(" { ");
        let t = render_section(Piece::NilImpl, ms);
        s.append(t.as_str());
        let t = render_section(Piece::NilAtIndex, ms);
        s.append(t.as_str());
        let t = render_section(Piece::NilBool, ms);
        s.append(t.as_str());
        s.append("} ");
        assert(s@ =~= nil_impl_text(*self));
        s
    }

    fn cons_impl_string(&self) -> (r: String)
        ensures
            r@ == cons_impl_text(*self),
    {
        let a = args_list(&self.trait_generic_params);
        let w = where_string(&self.trait_where_clause);
        let ms = &self.methods;
        let mut s = String::from_str("impl<");
        let lp = leading_params(&self.trait_generic_params);
        s.append(lp.as_str());
        s.append("__HListHead: ");
        s.append(self.base_trait.as_str());
        s.append("<");
        s.append(a.as_str());
        s.append(">, __HListTail: ");
        s.append(self.hlist_trait.as_str());
        s.append("<");
        s.append(a.as_str());
        s.append(">> ");
        s.append(self.hlist_trait.as_str());
        s.append("<");
        s.append(a.as_str());
        s.append("> for hlist2::Cons<__HListHead, __HListTail>");
        s.append(w.as_str());
        s.append(" { ");
        let t = render_section(Piece::ConsImpl, ms);
        s.append(t.as_str());
        let t = render_section(Piece::ConsAtIndex, ms);
        s.append(t.as_str());
        let t = render_section(Piece::ConsBool, ms);
        s.append(t.as_str());
        s.append("}");
        assert(s@ =~= cons_impl_text(*self));
        s
    }

    /// Emits the generated unit: the derived interface, its implementation
    /// for the empty list, and its implementation for a cell.
    pub fn expand(&self) -> (r: String)
        ensures
            r@ == expand_text(*self),
    {
        let mut s = self.interface_string();
        let n = self.nil_impl_string();
        s.append(n.as_str());
        let c = self.cons_impl_string();
        s.append(c.as_str());
        s
    }
}

impl TraitHListInput {
    /// Whether `self` holds the parts of `decl`, with one descriptor per item.
    pub open spec fn from_declaration(self, decl: Declaration) -> bool {
        &&& self.vis == decl.vis
        &&& self.hlist_trait == decl.hlist_trait
        &&& self.base_trait == decl.base_trait
        &&& self.trait_generic_params@ == decl.trait_generic_params@
        &&& self.trait_where_clause == decl.trait_where_clause
        &&& self.methods@.len() == decl.items@.len()
        &&& forall|i: int|
            0 <= i < self.methods@.len() ==> describes_item(
                #[trigger] self.methods@[i],
                decl.items@[i],
            )
    }

    /// Describes every method of `decl`, or gives the refusal of the first
    /// refused item.
    pub fn new(decl: Declaration) -> (r: Result<Self, GenError>)
        ensures
            match r {
                Ok(inp) => first_error(decl.items@) == None::<GenError> && inp.from_declaration(
                    decl,
                ),
                Err(e) => first_error(decl.items@) == Some(e),
            },
    {
        let ghost all = decl.items@;
        let vis = decl.vis;
        let hlist_trait = decl.hlist_trait;
        let base_trait = decl.base_trait;
        let trait_generic_params = decl.trait_generic_params;
        let trait_where_clause = decl.trait_where_clause;
        let mut items = decl.items;
        let mut methods: Vec<TraitHListMethod> = Vec::new();
        while items.len() > 0
            invariant
                all == decl.items@,
                methods@.len() + items@.len() == all.len(),
                items@ == all.subrange(methods@.len() as int, all.len() as int),
                first_error(all) == first_error(items@),
                forall|j: int|
                    0 <= j < methods@.len() ==> describes_item(#[trigger] methods@[j], all[j]),
            decreases items@.len(),
        {
            let ghost before = items@;
            let ghost k = methods@.len() as int;
            let it = items.remove(0);
            assert(before.drop_first() =~= items@);
            assert(before[0] == it);
            assert(first_error(before) == match item_error(it) {
                Some(e) => Some(e),
                None => first_error(items@),
            });
            assert(items@ =~= all.subrange(k + 1, all.len() as int));
            match it {
                TraitItem::Fn(f) => match TraitHListMethod::new(f) {
                    Ok(d) => {
                        methods.push(d);
                        assert(methods@[k] == d);
                    },
                    Err(e) => {
                        return Err(e);
                    },
                },
                TraitItem::Const => {
                    return Err(GenError::ConstItem);
                },
                TraitItem::Type => {
                    return Err(GenError::TypeItem);
                },
                TraitItem::Macro => {
                    return Err(GenError::MacroItem);
                },
                TraitItem::Verbatim => {
                    return Err(GenError::ExtraTokens);
                },
                TraitItem::Other => {
                    return Err(GenError::UnsupportedItem);
                },
            }
        }
        Ok(TraitHListInput {
            vis,
            hlist_trait,
            base_trait,
            trait_generic_params,
            trait_where_clause,
            methods,
        })
    }
}

/// Renaming a method changes only the name it is published under: two
/// declarations of one method that differ in their attributes alone give
/// descriptors that call the same base method with the same arguments and
/// the same output type, and whose emitted text is the same wherever the
/// public names agree.
pub proof fn lemma_rename_only_renames(
    m1: TraitItemFn,
    m2: TraitItemFn,
    d1: TraitHListMethod,
    d2: TraitHListMethod,
)
    requires
        m1.ident == m2.ident,
        m1.generics@ == m2.generics@,
        m1.inputs@ == m2.inputs@,
        m1.output == m2.output,
        m1.where_clause == m2.where_clause,
        m1.has_default == m2.has_default,
        d1.describes(m1, upper_of(m1.ident@)),
        d2.describes(m2, upper_of(m2.ident@)),
    ensures
        d1.item_fn_ident == d2.item_fn_ident,
        d1.item_output@ == d2.item_output@,
        d1.hlist_output_ident@ == d2.hlist_output_ident@,
        d1.item_generic_params@ == d2.item_generic_params@,
        texts(d1.item_generic_args@) == texts(d2.item_generic_args@),
        d1.item_where_clause == d2.item_where_clause,
        texts(d1.args@) == texts(d2.args@),
        texts(d1.args_cloned@) == texts(d2.args_cloned@),
        d1.hlist_fn_ident_all is Some <==> d2.hlist_fn_ident_all is Some,
        d1.hlist_fn_ident@ == d2.hlist_fn_ident@ ==> forall|k: Piece|
            piece_text(k, d1) == piece_text(k, d2),
{
    if d1.hlist_fn_ident@ == d2.hlist_fn_ident@ {
        assert forall|k: Piece| piece_text(k, d1) == piece_text(k, d2) by {
            assert(d1.hlist_fn_sig@ == d2.hlist_fn_sig@);
            assert(d1.hlist_fn_sig_at_index@ == d2.hlist_fn_sig_at_index@);
            assert(d1.hlist_fn_ident_at_index@ == d2.hlist_fn_ident_at_index@);
        }
    }
}

} // verus!
