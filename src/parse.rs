//! The declaration grammar, over tokens:
//! `[pub] Name for trait Base [<params>] [where ..] { items }`.
use vstd::prelude::*;

use crate::generic_param_to_arg::GenericParam;
use crate::trait_hlist_input::{Declaration, TraitItem};
use crate::token::{
    comma_list, is_ident, is_joint, is_joint_tok, is_punct, is_punct_tok, is_word, is_word_tok,
    delta, delta_of, lemma_pieces_nonempty, pieces, render, render_tokens, scan, scan_from, slice,
    tok_text, Delim, Stop, Tok,
};
use crate::trait_hlist_method::{AttrValue, FnArg, GenError, MethodAttr, Pattern, TraitItemFn};

verus! {

/// A `:` that is not part of `::`.
pub open spec fn colon_alone(t: Tok) -> bool {
    is_punct(t, ':') && !is_joint(t)
}

/// Token `k` of a lifetime list `'a + 'b + ..`.
pub open spec fn lifetime_list_tok(s: Seq<Tok>, k: int) -> bool {
    if k % 3 == 0 {
        is_punct(s[k], '\'')
    } else if k % 3 == 1 {
        is_ident(s[k])
    } else {
        is_punct(s[k], '+')
    }
}

/// A non-empty list of lifetimes joined by `+`.
pub open spec fn lifetime_list(s: Seq<Tok>) -> bool {
    s.len() % 3 == 2 && forall|k: int| 0 <= k < s.len() ==> #[trigger] lifetime_list_tok(s, k)
}

/// Nesting depth (groups and angle brackets) before token `k`.
pub open spec fn depth_at(s: Seq<Tok>, k: int) -> int
    decreases k,
{
    if k <= 0 {
        0
    } else {
        depth_at(s, k - 1) + delta(Stop::Eq, s, k - 1)
    }
}

/// No two identifiers stand side by side outside any bracket: the mark of
/// two items written without the separator between them.
pub open spec fn adjacent_free(s: Seq<Tok>) -> bool {
    forall|k: int|
        0 <= k && k + 1 < s.len() && #[trigger] depth_at(s, k) == 0 ==> !(is_ident(s[k])
            && is_ident(s[k + 1]))
}

/// A non-empty list of bounds.
pub open spec fn bounds_ok(s: Seq<Tok>) -> bool {
    s.len() >= 1 && adjacent_free(s)
}

/// Whether a comma-separated piece declares one generic parameter: a
/// lifetime with optional lifetime bounds (`'a`, `'a: 'b + 'c`), a type
/// with optional bounds and default (`T`, `T: Bound`, `T: Bound = Ty`,
/// `T = Ty`), or a const parameter with its type and optional default
/// (`const N: usize`, `const N: usize = 3`).
pub open spec fn param_ok(pt: Seq<Tok>) -> bool {
    let e = scan(pt, Stop::Eq, 0, 0);
    let default_ok = e == pt.len() || e + 1 < pt.len();
    if pt.len() >= 1 && is_punct(pt[0], '\'') {
        pt.len() >= 2 && is_ident(pt[1]) && (pt.len() == 2 || (colon_alone(pt[2]) && lifetime_list(
            pt.subrange(3, pt.len() as int),
        )))
    } else if pt.len() >= 1 && is_word(pt[0], "const"@) {
        pt.len() >= 4 && is_ident(pt[1]) && colon_alone(pt[2]) && e > 3 && default_ok
    } else {
        pt.len() >= 1 && is_ident(pt[0]) && (pt.len() == 1 || (colon_alone(pt[1]) && e > 2
            && bounds_ok(pt.subrange(2, e)) && default_ok) || (e == 1 && default_ok))
    }
}

fn colon_alone_tok(t: &Tok) -> (r: bool)
    ensures
        r == colon_alone(*t),
{
    is_punct_tok(t, ':') && !is_joint_tok(t)
}

fn is_ident_tok(t: &Tok) -> (r: bool)
    ensures
        r == is_ident(*t),
{
    match t {
        Tok::Ident(_) => true,
        _ => false,
    }
}

/// Whether tokens `a` to the end of `s` are a lifetime list.
fn check_lifetime_list(s: &Vec<Tok>, a: usize) -> (r: bool)
    requires
        a <= s@.len(),
    ensures
        r == lifetime_list(s@.subrange(a as int, s@.len() as int)),
{
    let ghost t = s@.subrange(a as int, s@.len() as int);
    let n = s.len() - a;
    if n % 3 != 2 {
        return false;
    }
    let mut j: usize = a;
    while j < s.len()
        invariant
            n == t.len(),
            t == s@.subrange(a as int, s@.len() as int),
            a + n == s@.len(),
            a <= j <= s@.len(),
            forall|q: int| 0 <= q < j - a ==> #[trigger] lifetime_list_tok(t, q),
        decreases s@.len() - j,
    {
        let k = j - a;
        let tk = &s[j];
        assert(t[k as int] == *tk);
        let ok = if k % 3 == 0 {
            is_punct_tok(tk, '\'')
        } else if k % 3 == 1 {
            is_ident_tok(tk)
        } else {
            is_punct_tok(tk, '+')
        };
        if !ok {
            assert(!lifetime_list_tok(t, k as int));
            return false;
        }
        j += 1;
    }
    true
}

/// Whether tokens `a` to `b` of `s` hold no two side-by-side identifiers
/// outside brackets.
fn check_adjacent_free(s: &Vec<Tok>, a: usize, b: usize) -> (r: bool)
    requires
        a <= b <= s@.len(),
    ensures
        r == adjacent_free(s@.subrange(a as int, b as int)),
{
    let t = slice(s, a, b);
    let mut k: usize = 0;
    let mut depth: i128 = 0;
    while k < t.len()
        invariant
            k <= t@.len(),
            t@ == s@.subrange(a as int, b as int),
            depth == depth_at(t@, k as int),
            -(k as int) <= depth <= k as int,
            forall|j: int|
                0 <= j && j < k && j + 1 < t@.len() && #[trigger] depth_at(t@, j) == 0 ==> !(
                is_ident(t@[j]) && is_ident(t@[j + 1])),
        decreases t@.len() - k,
    {
        if depth == 0 && k + 1 < t.len() && is_ident_tok(&t[k]) && is_ident_tok(&t[k + 1]) {
            return false;
        }
        let d = delta_of(Stop::Eq, &t, k);
        depth = depth + d as i128;
        k += 1;
    }
    true
}

/// What a well-formed piece declares.
pub open spec fn param_is(pt: Seq<Tok>, p: GenericParam) -> bool {
    match p {
        GenericParam::Lifetime { lifetime, decl } => is_punct(pt[0], '\'') && lifetime@ == render(
            pt.take(2),
        ) && decl@ == render(pt),
        GenericParam::Const { ident, decl } => is_word(pt[0], "const"@) && ident@ == tok_text(pt[1])
            && decl@ == render(pt),
        GenericParam::Type { ident, decl } => !is_punct(pt[0], '\'') && !is_word(pt[0], "const"@)
            && ident@ == tok_text(pt[0]) && decl@ == render(pt),
    }
}

pub open spec fn params_ok(ts: Seq<Tok>) -> bool {
    forall|i: int| 0 <= i < comma_list(ts).len() ==> param_ok(#[trigger] comma_list(ts)[i])
}

pub open spec fn params_are(ts: Seq<Tok>, ps: Seq<GenericParam>) -> bool {
    &&& ps.len() == comma_list(ts).len()
    &&& forall|i: int| 0 <= i < ps.len() ==> param_is(#[trigger] comma_list(ts)[i], ps[i])
}

fn parse_param(pt: &Vec<Tok>) -> (r: Result<GenericParam, ()>)
    ensures
        match r {
            Ok(p) => param_ok(pt@) && param_is(pt@, p),
            Err(_) => !param_ok(pt@),
        },
{
    let len = pt.len();
    if len == 0 {
        return Err(());
    }
    let e = scan_from(pt, Stop::Eq, 0);
    let default_ok = e == len || e + 1 < len;
    let decl = render_tokens(pt);
    if is_punct_tok(&pt[0], '\'') {
        if len < 2 || !is_ident_tok(&pt[1]) {
            return Err(());
        }
        if len > 2 && !(colon_alone_tok(&pt[2]) && check_lifetime_list(pt, 3)) {
            return Err(());
        }
        let two = slice(pt, 0, 2);
        let lifetime = render_tokens(&two);
        Ok(GenericParam::Lifetime { lifetime, decl })
    } else if is_word_tok(&pt[0], "const") {
        if len < 4 || !colon_alone_tok(&pt[2]) || e <= 3 || !default_ok {
            return Err(());
        }
        match &pt[1] {
            Tok::Ident(n) => Ok(GenericParam::Const { ident: n.clone(), decl }),
            _ => Err(()),
        }
    } else {
        let ok = len == 1 || (colon_alone_tok(&pt[1]) && e > 2 && check_adjacent_free(pt, 2, e)
            && default_ok) || (e == 1 && default_ok);
        if !ok {
            return Err(());
        }
        match &pt[0] {
            Tok::Ident(n) => Ok(GenericParam::Type { ident: n.clone(), decl }),
            _ => Err(()),
        }
    }
}

/// One where-clause predicate: a bounded type or lifetime, a `:`, and a
/// non-empty list of bounds.
pub open spec fn pred_ok(p: Seq<Tok>) -> bool {
    let c = scan(p, Stop::Colon, 0, 0);
    1 <= c < p.len() && bounds_ok(p.subrange(c + 1, p.len() as int))
}

/// The predicates after `where`, comma separated, a trailing comma allowed.
pub open spec fn where_ok(w: Seq<Tok>) -> bool {
    forall|i: int| 0 <= i < comma_list(w).len() ==> pred_ok(#[trigger] comma_list(w)[i])
}

fn check_pred(p: &Vec<Tok>) -> (r: bool)
    ensures
        r == pred_ok(p@),
{
    let c = scan_from(p, Stop::Colon, 0);
    1 <= c && c < p.len() && c + 1 < p.len() && check_adjacent_free(p, c + 1, p.len())
}

/// Whether the tokens after `where` are well-formed predicates.
fn check_where(ts: &Vec<Tok>) -> (r: bool)
    ensures
        r == where_ok(ts@),
{
    let ghost all = pieces(ts@, Stop::Comma, 0);
    let ghost mut done: Seq<Seq<Tok>> = Seq::empty();
    let mut i: usize = 0;
    loop
        invariant
            i <= ts@.len(),
            all == pieces(ts@, Stop::Comma, 0),
            all == done + pieces(ts@, Stop::Comma, i as int),
            forall|k: int| 0 <= k < done.len() ==> pred_ok(#[trigger] done[k]),
        decreases ts@.len() - i,
    {
        let j = scan_from(ts, Stop::Comma, i);
        let piece = slice(ts, i, j);
        proof {
            assert(pieces(ts@, Stop::Comma, i as int) == if j >= ts@.len() {
                seq![ts@.subrange(i as int, ts@.len() as int)]
            } else {
                seq![ts@.subrange(i as int, j as int)] + pieces(ts@, Stop::Comma, j + 1)
            });
        }
        if j == ts.len() && piece.len() == 0 {
            proof {
                assert(all =~= done.push(piece@));
                assert(all.last() == piece@);
                assert(all.drop_last() =~= done);
                assert(comma_list(ts@) =~= done);
            }
            return true;
        }
        if !check_pred(&piece) {
            proof {
                if j >= ts@.len() {
                    assert(all =~= done.push(piece@));
                    assert(all.last() == piece@);
                    assert(comma_list(ts@) =~= all);
                    assert(comma_list(ts@)[done.len() as int] == piece@);
                } else {
                    let rest = pieces(ts@, Stop::Comma, j + 1);
                    lemma_pieces_nonempty(ts@, Stop::Comma, j + 1);
                    assert(all =~= done.push(piece@) + rest);
                    assert(all[done.len() as int] == piece@);
                    let cl = comma_list(ts@);
                    assert(cl == all || cl == all.drop_last());
                    assert(cl[done.len() as int] == piece@);
                }
                assert(!pred_ok(comma_list(ts@)[done.len() as int]));
            }
            return false;
        }
        proof {
            done = done.push(piece@);
        }
        if j == ts.len() {
            proof {
                assert(all =~= done);
                assert(comma_list(ts@) =~= done);
            }
            return true;
        }
        proof {
            assert(all =~= done + pieces(ts@, Stop::Comma, j + 1));
        }
        i = j + 1;
    }
}

/// Parses the parameters between angle brackets.
pub fn parse_params(ts: &Vec<Tok>) -> (r: Result<Vec<GenericParam>, ()>)
    ensures
        match r {
            Ok(ps) => params_ok(ts@) && params_are(ts@, ps@),
            Err(_) => !params_ok(ts@),
        },
{
    let ghost all = pieces(ts@, Stop::Comma, 0);
    let ghost mut done: Seq<Seq<Tok>> = Seq::empty();
    let mut out: Vec<GenericParam> = Vec::new();
    let mut i: usize = 0;
    loop
        invariant
            i <= ts@.len(),
            all == pieces(ts@, Stop::Comma, 0),
            all == done + pieces(ts@, Stop::Comma, i as int),
            out@.len() == done.len(),
            forall|k: int| 0 <= k < done.len() ==> param_ok(#[trigger] done[k]) && param_is(done[k], out@[k]),
        decreases ts@.len() - i,
    {
        let j = scan_from(ts, Stop::Comma, i);
        let piece = slice(ts, i, j);
        proof {
            assert(pieces(ts@, Stop::Comma, i as int) == if j >= ts@.len() {
                seq![ts@.subrange(i as int, ts@.len() as int)]
            } else {
                seq![ts@.subrange(i as int, j as int)] + pieces(ts@, Stop::Comma, j + 1)
            });
        }
        if j == ts.len() && piece.len() == 0 {
            proof {
                assert(all =~= done.push(piece@));
                assert(all.last() == piece@);
                assert(all.drop_last() =~= done);
                assert(comma_list(ts@) =~= done);
            }
            return Ok(out);
        }
        match parse_param(&piece) {
            Ok(p) => {
                out.push(p);
            },
            Err(e) => {
                proof {
                    if j >= ts@.len() {
                        assert(all =~= done.push(piece@));
                        assert(all.last() == piece@);
                        assert(comma_list(ts@) =~= all);
                        assert(comma_list(ts@)[done.len() as int] == piece@);
                    } else {
                        let rest = pieces(ts@, Stop::Comma, j + 1);
                        lemma_pieces_nonempty(ts@, Stop::Comma, j + 1);
                        assert(all =~= done.push(piece@) + rest);
                        assert(all[done.len() as int] == piece@);
                        assert(done.len() < all.len() - 1);
                        let cl = comma_list(ts@);
                        assert(cl == all || cl == all.drop_last());
                        assert(cl[done.len() as int] == piece@);
                    }
                    assert(!param_ok(comma_list(ts@)[done.len() as int]));
                }
                return Err(e);
            },
        }
        proof {
            done = done.push(piece@);
        }
        if j == ts.len() {
            proof {
                assert(all =~= done);
                assert(comma_list(ts@) =~= done);
            }
            return Ok(out);
        }
        proof {
            assert(all =~= done + pieces(ts@, Stop::Comma, j + 1));
        }
        i = j + 1;
    }
}


/// Position of the `:` that ends an argument's pattern, or the end.
pub open spec fn colon_at(pt: Seq<Tok>) -> int {
    scan(pt, Stop::Colon, 0, 0)
}

/// An argument whose pattern ends in `self`: `self`, `mut self`, `&self`,
/// `&'a mut self`, `self: Box<Self>`.
pub open spec fn is_receiver(pt: Seq<Tok>) -> bool {
    colon_at(pt) >= 1 && is_word(pt[colon_at(pt) - 1], "self"@)
}

/// A pattern that binds one identifier: `x` or `mut x`, not `_`.
pub open spec fn pat_is_ident(pat: Seq<Tok>) -> bool {
    (pat.len() == 1 && binding(pat[0])) || (pat.len() == 2 && is_word(pat[0], "mut"@) && binding(
        pat[1],
    ))
}

/// An identifier that binds a name: not the wildcard `_`.
pub open spec fn binding(t: Tok) -> bool {
    is_ident(t) && !is_word(t, "_"@)
}

/// Whether a comma-separated piece is an argument: a receiver, or a
/// pattern, a `:` and a type.
pub open spec fn arg_ok(pt: Seq<Tok>) -> bool {
    pt.len() >= 1 && (is_receiver(pt) || (colon_at(pt) >= 1 && colon_at(pt) + 1 < pt.len()))
}

/// What a well-formed argument piece holds.
pub open spec fn arg_is(pt: Seq<Tok>, a: FnArg) -> bool {
    let c = colon_at(pt);
    match a {
        FnArg::Receiver(t) => is_receiver(pt) && t@ == render(pt),
        FnArg::Typed { pat, ty } => !is_receiver(pt) && ty@ == render(
            pt.subrange(c + 1, pt.len() as int),
        ) && match pat {
            Pattern::Ident(n) => pat_is_ident(pt.take(c)) && n@ == render(pt.take(c)),
            Pattern::Other => !pat_is_ident(pt.take(c)),
        },
    }
}

pub open spec fn args_ok(ts: Seq<Tok>) -> bool {
    forall|i: int| 0 <= i < comma_list(ts).len() ==> arg_ok(#[trigger] comma_list(ts)[i])
}

pub open spec fn args_are(ts: Seq<Tok>, args: Seq<FnArg>) -> bool {
    &&& args.len() == comma_list(ts).len()
    &&& forall|i: int| 0 <= i < args.len() ==> arg_is(#[trigger] comma_list(ts)[i], args[i])
}

fn parse_arg(pt: &Vec<Tok>) -> (r: Result<FnArg, ()>)
    ensures
        match r {
            Ok(a) => arg_ok(pt@) && arg_is(pt@, a),
            Err(_) => !arg_ok(pt@),
        },
{
    if pt.len() == 0 {
        return Err(());
    }
    let c = scan_from(pt, Stop::Colon, 0);
    if c >= 1 && is_word_tok(&pt[c - 1], "self") {
        return Ok(FnArg::Receiver(render_tokens(pt)));
    }
    if c == 0 || c >= pt.len() - 1 {
        return Err(());
    }
    let pat_toks = slice(pt, 0, c);
    let ty_toks = slice(pt, c + 1, pt.len());
    let ty = render_tokens(&ty_toks);
    let single = c == 1 && is_ident_tok(&pt[0]) && !is_word_tok(&pt[0], "_");
    let with_mut = c == 2 && is_word_tok(&pt[0], "mut") && is_ident_tok(&pt[1]) && !is_word_tok(
        &pt[1],
        "_",
    );
    assert(pat_toks@ =~= pt@.take(c as int));
    let pat = if single || with_mut {
        Pattern::Ident(render_tokens(&pat_toks))
    } else {
        Pattern::Other
    };
    Ok(FnArg::Typed { pat, ty })
}

/// The token before `=` in an attribute, or the end.
pub open spec fn eq_at(inner: Seq<Tok>) -> int {
    scan(inner, Stop::Eq, 0, 0)
}

/// A path: identifiers and `:` only.
pub open spec fn is_path(v: Seq<Tok>) -> bool {
    v.len() > 0 && forall|i: int| 0 <= i < v.len() ==> is_ident(#[trigger] v[i]) || is_punct(v[i], ':')
}

/// What the value of a `key = value` attribute is.
pub open spec fn value_is(v: Seq<Tok>, val: AttrValue) -> bool {
    let single = v.len() == 1 && is_ident(v[0]);
    match val {
        AttrValue::Ident(n) => single && n@ == tok_text(v[0]),
        AttrValue::Path(p) => !single && is_path(v) && p@ == render(v),
        AttrValue::Other => !single && !is_path(v),
    }
}

/// What the tokens inside `#[..]` say.
pub open spec fn attr_is(inner: Seq<Tok>, a: MethodAttr) -> bool {
    let e = eq_at(inner);
    match a {
        MethodAttr::NameValue { key, value } => 1 <= e < inner.len() && key@ == render(inner.take(e))
            && value_is(inner.subrange(e + 1, inner.len() as int), value),
        MethodAttr::Other => !(1 <= e < inner.len()),
    }
}

fn parse_value(v: &Vec<Tok>) -> (r: AttrValue)
    ensures
        value_is(v@, r),
{
    if v.len() == 1 {
        match &v[0] {
            Tok::Ident(n) => {
                return AttrValue::Ident(n.clone());
            },
            _ => {},
        }
    }
    if v.len() == 0 {
        return AttrValue::Other;
    }
    let mut i: usize = 0;
    while i < v.len()
        invariant
            i <= v@.len(),
            forall|j: int| 0 <= j < i ==> is_ident(#[trigger] v@[j]) || is_punct(v@[j], ':'),
        decreases v@.len() - i,
    {
        let ok = match &v[i] {
            Tok::Ident(_) => true,
            _ => is_punct_tok(&v[i], ':'),
        };
        if !ok {
            return AttrValue::Other;
        }
        i += 1;
    }
    AttrValue::Path(render_tokens(v))
}

fn parse_attr(inner: &Vec<Tok>) -> (r: MethodAttr)
    ensures
        attr_is(inner@, r),
{
    let e = scan_from(inner, Stop::Eq, 0);
    if e < 1 || e >= inner.len() {
        return MethodAttr::Other;
    }
    let key_toks = slice(inner, 0, e);
    let value_toks = slice(inner, e + 1, inner.len());
    MethodAttr::NameValue { key: render_tokens(&key_toks), value: parse_value(&value_toks) }
}
/// Parses the argument list between parentheses.
pub fn parse_args(ts: &Vec<Tok>) -> (r: Result<Vec<FnArg>, ()>)
    ensures
        match r {
            Ok(ps) => args_ok(ts@) && args_are(ts@, ps@),
            Err(_) => !args_ok(ts@),
        },
{
    let ghost all = pieces(ts@, Stop::Comma, 0);
    let ghost mut done: Seq<Seq<Tok>> = Seq::empty();
    let mut out: Vec<FnArg> = Vec::new();
    let mut i: usize = 0;
    loop
        invariant
            i <= ts@.len(),
            all == pieces(ts@, Stop::Comma, 0),
            all == done + pieces(ts@, Stop::Comma, i as int),
            out@.len() == done.len(),
            forall|k: int| 0 <= k < done.len() ==> arg_ok(#[trigger] done[k]) && arg_is(done[k], out@[k]),
        decreases ts@.len() - i,
    {
        let j = scan_from(ts, Stop::Comma, i);
        let piece = slice(ts, i, j);
        proof {
            assert(pieces(ts@, Stop::Comma, i as int) == if j >= ts@.len() {
                seq![ts@.subrange(i as int, ts@.len() as int)]
            } else {
                seq![ts@.subrange(i as int, j as int)] + pieces(ts@, Stop::Comma, j + 1)
            });
        }
        if j == ts.len() && piece.len() == 0 {
            proof {
                assert(all =~= done.push(piece@));
                assert(all.last() == piece@);
                assert(all.drop_last() =~= done);
                assert(comma_list(ts@) =~= done);
            }
            return Ok(out);
        }
        match parse_arg(&piece) {
            Ok(p) => {
                out.push(p);
            },
            Err(e) => {
                proof {
                    if j >= ts@.len() {
                        assert(all =~= done.push(piece@));
                        assert(all.last() == piece@);
                        assert(comma_list(ts@) =~= all);
                        assert(comma_list(ts@)[done.len() as int] == piece@);
                    } else {
                        let rest = pieces(ts@, Stop::Comma, j + 1);
                        lemma_pieces_nonempty(ts@, Stop::Comma, j + 1);
                        assert(all =~= done.push(piece@) + rest);
                        assert(all[done.len() as int] == piece@);
                        assert(done.len() < all.len() - 1);
                        let cl = comma_list(ts@);
                        assert(cl == all || cl == all.drop_last());
                        assert(cl[done.len() as int] == piece@);
                    }
                    assert(!arg_ok(comma_list(ts@)[done.len() as int]));
                }
                return Err(e);
            },
        }
        proof {
            done = done.push(piece@);
        }
        if j == ts.len() {
            proof {
                assert(all =~= done);
                assert(comma_list(ts@) =~= done);
            }
            return Ok(out);
        }
        proof {
            assert(all =~= done + pieces(ts@, Stop::Comma, j + 1));
        }
        i = j + 1;
    }
}


pub open spec fn attrs_are(ats: Seq<Seq<Tok>>, attrs: Seq<MethodAttr>) -> bool {
    &&& attrs.len() == ats.len()
    &&& forall|i: int| 0 <= i < ats.len() ==> attr_is(#[trigger] ats[i], attrs[i])
}

/// Whether an attribute `#[` starts at `a`.
pub open spec fn attr_open(it: Seq<Tok>, a: int) -> bool {
    0 <= a && a + 1 < it.len() && is_punct(it[a], '#') && it[a + 1] == Tok::Open(Delim::Bracket)
}

/// The insides of the attributes that start at `a`, and the position after
/// them.
pub open spec fn attrs_from(it: Seq<Tok>, a: int) -> (Seq<Seq<Tok>>, int)
    decreases it.len() - a,
{
    if attr_open(it, a) {
        let c = scan(it, Stop::GroupClose, a + 2, 0);
        if a + 2 <= c < it.len() {
            let rest = attrs_from(it, c + 1);
            (seq![it.subrange(a + 2, c)] + rest.0, rest.1)
        } else {
            (Seq::empty(), a)
        }
    } else {
        (Seq::empty(), a)
    }
}

fn parse_attrs(it: &Vec<Tok>) -> (r: (Vec<MethodAttr>, usize))
    ensures
        r.1 == attrs_from(it@, 0).1,
        attrs_are(attrs_from(it@, 0).0, r.0@),
{
    let ghost mut done: Seq<Seq<Tok>> = Seq::empty();
    let mut out: Vec<MethodAttr> = Vec::new();
    let mut a: usize = 0;
    loop
        invariant
            a <= it@.len(),
            attrs_from(it@, 0) == (done + attrs_from(it@, a as int).0, attrs_from(it@, a as int).1),
            attrs_are(done, out@),
        decreases it@.len() - a,
    {
        let open = a < it.len() && a + 1 < it.len() && is_punct_tok(&it[a], '#') && match &it[a + 1] {
            Tok::Open(Delim::Bracket) => true,
            _ => false,
        };
        if !open {
            proof {
                assert(done + Seq::<Seq<Tok>>::empty() =~= done);
            }
            return (out, a);
        }
        let c = scan_from(it, Stop::GroupClose, a + 2);
        if c >= it.len() {
            proof {
                assert(done + Seq::<Seq<Tok>>::empty() =~= done);
            }
            return (out, a);
        }
        let inner = slice(it, a + 2, c);
        let at = parse_attr(&inner);
        out.push(at);
        proof {
            let rest = attrs_from(it@, c + 1);
            assert(attrs_from(it@, a as int) == (seq![it@.subrange(a + 2, c as int)] + rest.0, rest.1));
            assert(done + (seq![inner@] + rest.0) =~= done.push(inner@) + rest.0);
            done = done.push(inner@);
            assert forall|i: int| 0 <= i < done.len() implies attr_is(#[trigger] done[i], out@[i]) by {
            }
        }
        a = c + 1;
    }
}

pub open spec fn has_generics(m: Seq<Tok>) -> bool {
    1 < m.len() && is_punct(m[1], '<')
}

pub open spec fn generics_close(m: Seq<Tok>) -> int {
    scan(m, Stop::AngleClose, 2, 0)
}

pub open spec fn paren_at(m: Seq<Tok>) -> int {
    if has_generics(m) {
        generics_close(m) + 1
    } else {
        1
    }
}

pub open spec fn paren_close(m: Seq<Tok>) -> int {
    scan(m, Stop::GroupClose, paren_at(m) + 1, 0)
}

pub open spec fn after_args(m: Seq<Tok>) -> int {
    paren_close(m) + 1
}

/// Whether `->` follows the argument list.
pub open spec fn has_output(m: Seq<Tok>) -> bool {
    let d = after_args(m);
    d + 1 < m.len() && is_punct(m[d], '-') && is_joint(m[d]) && is_punct(m[d + 1], '>')
}

pub open spec fn output_end(m: Seq<Tok>) -> int {
    scan(m, Stop::WhereOrBrace, after_args(m) + 2, 0)
}

pub open spec fn where_at(m: Seq<Tok>) -> int {
    if has_output(m) {
        output_end(m)
    } else {
        after_args(m)
    }
}

pub open spec fn has_where(m: Seq<Tok>) -> bool {
    where_at(m) < m.len() && is_word(m[where_at(m)], "where"@)
}

pub open spec fn where_end(m: Seq<Tok>) -> int {
    scan(m, Stop::Brace, where_at(m), 0)
}

/// Where the default body would start; the end when there is none.
pub open spec fn body_at(m: Seq<Tok>) -> int {
    if has_where(m) {
        where_end(m)
    } else {
        where_at(m)
    }
}

pub open spec fn generics_toks(m: Seq<Tok>) -> Seq<Tok> {
    if has_generics(m) {
        m.subrange(2, generics_close(m))
    } else {
        Seq::empty()
    }
}

pub open spec fn args_toks(m: Seq<Tok>) -> Seq<Tok> {
    m.subrange(paren_at(m) + 1, paren_close(m))
}

/// Whether the tokens after `fn` make a method signature: a name, optional
/// generics, arguments in parentheses, an optional return type, an optional
/// where clause, then the end or a default body.
pub open spec fn method_ok(m: Seq<Tok>) -> bool {
    &&& m.len() >= 1 && is_ident(m[0])
    &&& has_generics(m) ==> generics_close(m) < m.len()
    &&& paren_at(m) < m.len() && m[paren_at(m)] == Tok::Open(Delim::Paren)
    &&& paren_close(m) < m.len()
    &&& has_output(m) ==> output_end(m) > after_args(m) + 2
    &&& has_where(m) ==> where_ok(m.subrange(where_at(m) + 1, where_end(m)))
    &&& body_at(m) == m.len() || m[body_at(m)] == Tok::Open(Delim::Brace)
    &&& params_ok(generics_toks(m))
    &&& args_ok(args_toks(m))
}

/// What a well-formed method signature declares, its attributes aside.
pub open spec fn method_is(m: Seq<Tok>, f: TraitItemFn) -> bool {
    &&& f.ident@ == tok_text(m[0])
    &&& params_are(generics_toks(m), f.generics@)
    &&& args_are(args_toks(m), f.inputs@)
    &&& match f.output {
        Some(t) => has_output(m) && t@ == render(m.subrange(after_args(m) + 2, output_end(m))),
        None => !has_output(m),
    }
    &&& match f.where_clause {
        Some(w) => has_where(m) && w@ == render(m.subrange(where_at(m), where_end(m))),
        None => !has_where(m),
    }
    &&& f.has_default == (body_at(m) < m.len())
}

fn parse_method(m: &Vec<Tok>, attrs: Vec<MethodAttr>) -> (r: Result<TraitItemFn, ()>)
    ensures
        match r {
            Ok(f) => method_ok(m@) && method_is(m@, f) && f.attrs == attrs,
            Err(_) => !method_ok(m@),
        },
{
    let len = m.len();
    if len == 0 {
        return Err(());
    }
    let ident = match &m[0] {
        Tok::Ident(n) => n.clone(),
        _ => {
            return Err(());
        },
    };
    let (generics, paren) = if 1 < len && is_punct_tok(&m[1], '<') {
        let q = scan_from(m, Stop::AngleClose, 2);
        if q >= len {
            return Err(());
        }
        let g = slice(m, 2, q);
        match parse_params(&g) {
            Ok(ps) => (ps, q + 1),
            Err(e) => {
                return Err(e);
            },
        }
    } else {
        let g: Vec<Tok> = Vec::new();
        assert(g@ =~= generics_toks(m@));
        match parse_params(&g) {
            Ok(ps) => (ps, 1),
            Err(e) => {
                return Err(e);
            },
        }
    };
    if paren >= len {
        return Err(());
    }
    match &m[paren] {
        Tok::Open(Delim::Paren) => {},
        _ => {
            return Err(());
        },
    }
    let c = scan_from(m, Stop::GroupClose, paren + 1);
    if c >= len {
        return Err(());
    }
    let arg_toks = slice(m, paren + 1, c);
    let inputs = match parse_args(&arg_toks) {
        Ok(a) => a,
        Err(e) => {
            return Err(e);
        },
    };
    let d = c + 1;
    let has_out = d < len && d + 1 < len && is_punct_tok(&m[d], '-') && is_joint_tok(&m[d]) && is_punct_tok(
        &m[d + 1],
        '>',
    );
    let (output, w) = if has_out {
        let e = scan_from(m, Stop::WhereOrBrace, d + 2);
        if e <= d + 2 {
            return Err(());
        }
        let out_toks = slice(m, d + 2, e);
        (Some(render_tokens(&out_toks)), e)
    } else {
        (None, d)
    };
    let (where_clause, b) = if w < len && is_word_tok(&m[w], "where") {
        let e = scan_from(m, Stop::Brace, w);
        let where_toks = slice(m, w, e);
        let preds = slice(m, w + 1, e);
        if !check_where(&preds) {
            return Err(());
        }
        (Some(render_tokens(&where_toks)), e)
    } else {
        (None, w)
    };
    let has_default = if b == len {
        false
    } else {
        match &m[b] {
            Tok::Open(Delim::Brace) => true,
            _ => {
                return Err(());
            },
        }
    };
    Ok(TraitItemFn { attrs, ident, generics, inputs, output, where_clause, has_default })
}

pub open spec fn is_fn_at(it: Seq<Tok>, e: int) -> bool {
    0 <= e < it.len() && is_word(it[e], "fn"@)
}

pub open spec fn is_const_at(it: Seq<Tok>, e: int) -> bool {
    0 <= e < it.len() && is_word(it[e], "const"@)
}

pub open spec fn is_type_at(it: Seq<Tok>, e: int) -> bool {
    0 <= e < it.len() && is_word(it[e], "type"@)
}

pub open spec fn is_macro_at(it: Seq<Tok>, e: int) -> bool {
    0 <= e && e + 1 < it.len() && is_ident(it[e]) && is_punct(it[e + 1], '!')
}

/// Whether the tokens of one item parse: only a method has a grammar of
/// its own here; any other item is kept by its kind.
pub open spec fn item_ok(it: Seq<Tok>) -> bool {
    let e = attrs_from(it, 0).1;
    is_fn_at(it, e) ==> method_ok(it.subrange(e + 1, it.len() as int))
}

/// What the tokens of one item hold.
pub open spec fn item_is(it: Seq<Tok>, x: TraitItem) -> bool {
    let ats = attrs_from(it, 0).0;
    let e = attrs_from(it, 0).1;
    match x {
        TraitItem::Fn(f) => is_fn_at(it, e) && method_is(it.subrange(e + 1, it.len() as int), f)
            && attrs_are(ats, f.attrs@),
        TraitItem::Const => !is_fn_at(it, e) && is_const_at(it, e),
        TraitItem::Type => !is_fn_at(it, e) && !is_const_at(it, e) && is_type_at(it, e),
        TraitItem::Macro => !is_fn_at(it, e) && !is_const_at(it, e) && !is_type_at(it, e)
            && is_macro_at(it, e),
        TraitItem::Verbatim => false,
        TraitItem::Other => !is_fn_at(it, e) && !is_const_at(it, e) && !is_type_at(it, e)
            && !is_macro_at(it, e),
    }
}

fn parse_item(it: &Vec<Tok>) -> (r: Result<TraitItem, ()>)
    ensures
        match r {
            Ok(x) => item_ok(it@) && item_is(it@, x),
            Err(_) => !item_ok(it@),
        },
{
    let (attrs, e) = parse_attrs(it);
    proof {
        lemma_attrs_bound(it@, 0);
    }
    if e < it.len() && is_word_tok(&it[e], "fn") {
        let m = slice(it, e + 1, it.len());
        match parse_method(&m, attrs) {
            Ok(f) => Ok(TraitItem::Fn(f)),
            Err(err) => Err(err),
        }
    } else if e < it.len() && is_word_tok(&it[e], "const") {
        Ok(TraitItem::Const)
    } else if e < it.len() && is_word_tok(&it[e], "type") {
        Ok(TraitItem::Type)
    } else if e < it.len() && e + 1 < it.len() && match &it[e] {
        Tok::Ident(_) => true,
        _ => false,
    } && is_punct_tok(&it[e + 1], '!') {
        Ok(TraitItem::Macro)
    } else {
        Ok(TraitItem::Other)
    }
}

proof fn lemma_attrs_bound(it: Seq<Tok>, a: int)
    requires
        0 <= a <= it.len(),
    ensures
        a <= attrs_from(it, a).1 <= it.len(),
    decreases it.len() - a,
{
    if attr_open(it, a) {
        let c = scan(it, Stop::GroupClose, a + 2, 0);
        if a + 2 <= c < it.len() {
            lemma_attrs_bound(it, c + 1);
        }
    }
}

/// The items of a declaration's body from position `i` on: each ends with
/// a `;` (left out) or with a braced body (kept); `None` where an item has
/// no end.
pub open spec fn items_from(body: Seq<Tok>, i: int) -> Option<Seq<Seq<Tok>>>
    decreases body.len() - i,
{
    if i < 0 || i >= body.len() {
        Some(Seq::empty())
    } else {
        let j = scan(body, Stop::SemiOrBrace, i, 0);
        if j >= body.len() || j < i {
            None
        } else if is_punct(body[j], ';') {
            match items_from(body, j + 1) {
                Some(rest) => Some(seq![body.subrange(i, j)] + rest),
                None => None,
            }
        } else {
            let c = scan(body, Stop::GroupClose, j + 1, 0);
            if c >= body.len() || c < j + 1 {
                None
            } else {
                match items_from(body, c + 1) {
                    Some(rest) => Some(seq![body.subrange(i, c + 1)] + rest),
                    None => None,
                }
            }
        }
    }
}

pub open spec fn items_ok(body: Seq<Tok>) -> bool {
    match items_from(body, 0) {
        Some(its) => forall|i: int| 0 <= i < its.len() ==> item_ok(#[trigger] its[i]),
        None => false,
    }
}

pub open spec fn items_are(body: Seq<Tok>, xs: Seq<TraitItem>) -> bool {
    match items_from(body, 0) {
        Some(its) => xs.len() == its.len() && forall|i: int|
            0 <= i < its.len() ==> item_is(#[trigger] its[i], xs[i]),
        None => false,
    }
}

/// `done` put before the items of `rest`, if there are any.
pub open spec fn prepend(done: Seq<Seq<Tok>>, rest: Option<Seq<Seq<Tok>>>) -> Option<Seq<Seq<Tok>>> {
    match rest {
        Some(r) => Some(done + r),
        None => None,
    }
}

proof fn lemma_items_not_ok(body: Seq<Tok>, its: Seq<Seq<Tok>>, k: int)
    requires
        items_from(body, 0) == Some(its),
        0 <= k < its.len(),
        !item_ok(its[k]),
    ensures
        !items_ok(body),
{
    let o = items_from(body, 0);
    assert(o is Some);
    assert(o->Some_0 == its);
    assert(items_ok(body) ==> item_ok(its[k]));
}

/// Start of the first item from `i` on that has no end or does not parse;
/// `-1` where every item parses.
pub open spec fn first_bad_item(body: Seq<Tok>, i: int) -> int
    decreases body.len() - i,
{
    if i < 0 || i >= body.len() {
        -1
    } else {
        let j = scan(body, Stop::SemiOrBrace, i, 0);
        if j >= body.len() || j < i {
            i
        } else if is_punct(body[j], ';') {
            if !item_ok(body.subrange(i, j)) {
                i
            } else {
                first_bad_item(body, j + 1)
            }
        } else {
            let c = scan(body, Stop::GroupClose, j + 1, 0);
            if c >= body.len() || c < j + 1 {
                i
            } else if !item_ok(body.subrange(i, c + 1)) {
                i
            } else {
                first_bad_item(body, c + 1)
            }
        }
    }
}

fn parse_items(body: &Vec<Tok>) -> (r: Result<Vec<TraitItem>, usize>)
    ensures
        match r {
            Ok(xs) => items_ok(body@) && items_are(body@, xs@),
            Err(at) => !items_ok(body@) && at == first_bad_item(body@, 0) && at < body@.len(),
        },
{
    let ghost mut done: Seq<Seq<Tok>> = Seq::empty();
    let mut out: Vec<TraitItem> = Vec::new();
    let mut i: usize = 0;
    while i < body.len()
        invariant
            i <= body@.len(),
            items_from(body@, 0) == prepend(done, items_from(body@, i as int)),
            first_bad_item(body@, 0) == first_bad_item(body@, i as int),
            out@.len() == done.len(),
            forall|k: int| 0 <= k < done.len() ==> item_ok(#[trigger] done[k]) && item_is(done[k], out@[k]),
        decreases body@.len() - i,
    {
        let j = scan_from(body, Stop::SemiOrBrace, i);
        if j >= body.len() {
            return Err(i);
        }
        let end = if is_punct_tok(&body[j], ';') {
            j
        } else {
            let c = scan_from(body, Stop::GroupClose, j + 1);
            if c >= body.len() {
                return Err(i);
            }
            c + 1
        };
        let next = if end == j {
            j + 1
        } else {
            end
        };
        let piece = slice(body, i, end);
        proof {
            assert(items_from(body@, i as int) == prepend(seq![piece@], items_from(body@, next as int)));
            assert(first_bad_item(body@, i as int) == if !item_ok(piece@) {
                i as int
            } else {
                first_bad_item(body@, next as int)
            });
        }
        match parse_item(&piece) {
            Ok(x) => {
                out.push(x);
            },
            Err(e) => {
                proof {
                    let rest = items_from(body@, next as int);
                    if rest is Some {
                        let its = done + (seq![piece@] + rest->Some_0);
                        assert(items_from(body@, 0) == Some(its));
                        assert(its[done.len() as int] == piece@);
                        assert(!item_ok(its[done.len() as int]));
                        assert(done.len() < its.len());
                        lemma_items_not_ok(body@, its, done.len() as int);
                    } else {
                        assert(items_from(body@, 0) is None);
                        assert(!items_ok(body@));
                    }
                }
                return Err(i);
            },
        }
        proof {
            let rest = items_from(body@, next as int);
            if rest is Some {
                assert(done + (seq![piece@] + rest->Some_0) =~= done.push(piece@) + rest->Some_0);
            }
            done = done.push(piece@);
        }
        i = next;
    }
    proof {
        assert(done + Seq::<Seq<Tok>>::empty() =~= done);
    }
    Ok(out)
}

pub open spec fn vis_len(ts: Seq<Tok>) -> int {
    if ts.len() > 0 && is_word(ts[0], "pub"@) {
        1
    } else {
        0
    }
}

/// `Name for trait Base`, after the optional `pub`.
pub open spec fn head_ok(ts: Seq<Tok>) -> bool {
    let p = vis_len(ts);
    p + 4 <= ts.len() && is_ident(ts[p]) && is_word(ts[p + 1], "for"@) && is_word(
        ts[p + 2],
        "trait"@,
    ) && is_ident(ts[p + 3])
}

pub open spec fn params_at(ts: Seq<Tok>) -> int {
    vis_len(ts) + 4
}

pub open spec fn decl_has_params(ts: Seq<Tok>) -> bool {
    params_at(ts) < ts.len() && is_punct(ts[params_at(ts)], '<')
}

pub open spec fn params_close(ts: Seq<Tok>) -> int {
    scan(ts, Stop::AngleClose, params_at(ts) + 1, 0)
}

pub open spec fn decl_where_at(ts: Seq<Tok>) -> int {
    if decl_has_params(ts) {
        params_close(ts) + 1
    } else {
        params_at(ts)
    }
}

pub open spec fn decl_has_where(ts: Seq<Tok>) -> bool {
    decl_where_at(ts) < ts.len() && is_word(ts[decl_where_at(ts)], "where"@)
}

pub open spec fn decl_where_end(ts: Seq<Tok>) -> int {
    scan(ts, Stop::Brace, decl_where_at(ts), 0)
}

pub open spec fn brace_at(ts: Seq<Tok>) -> int {
    if decl_has_where(ts) {
        decl_where_end(ts)
    } else {
        decl_where_at(ts)
    }
}

pub open spec fn brace_close(ts: Seq<Tok>) -> int {
    scan(ts, Stop::GroupClose, brace_at(ts) + 1, 0)
}

pub open spec fn decl_params_toks(ts: Seq<Tok>) -> Seq<Tok> {
    if decl_has_params(ts) {
        ts.subrange(params_at(ts) + 1, params_close(ts))
    } else {
        Seq::empty()
    }
}

pub open spec fn body_toks(ts: Seq<Tok>) -> Seq<Tok> {
    ts.subrange(brace_at(ts) + 1, brace_close(ts))
}

/// Whether `ts` follows the declaration grammar.
pub open spec fn declaration_ok(ts: Seq<Tok>) -> bool {
    &&& head_ok(ts)
    &&& decl_has_params(ts) ==> params_close(ts) < ts.len()
    &&& params_ok(decl_params_toks(ts))
    &&& brace_at(ts) < ts.len() && ts[brace_at(ts)] == Tok::Open(Delim::Brace)
    &&& decl_has_where(ts) ==> where_ok(ts.subrange(decl_where_at(ts) + 1, decl_where_end(ts)))
    &&& brace_close(ts) == ts.len() - 1
    &&& items_ok(body_toks(ts))
}

/// What a well-formed declaration holds.
pub open spec fn declaration_is(ts: Seq<Tok>, d: Declaration) -> bool {
    let p = vis_len(ts);
    &&& d.vis == (p == 1)
    &&& d.hlist_trait@ == tok_text(ts[p])
    &&& d.base_trait@ == tok_text(ts[p + 3])
    &&& params_are(decl_params_toks(ts), d.trait_generic_params@)
    &&& match d.trait_where_clause {
        Some(w) => decl_has_where(ts) && w@ == render(
            ts.subrange(decl_where_at(ts), decl_where_end(ts)),
        ),
        None => !decl_has_where(ts),
    }
    &&& items_are(body_toks(ts), d.items@)
}

/// Position of the token that starts the first offending construct of a
/// declaration that does not parse: the head token that is wrong, the `<`
/// of a malformed parameter list, the `where` of a malformed clause, the
/// missing or unclosed body, the first token after the body, or the start of
/// the first item that does not parse; the length where the input ends early.
pub open spec fn syntax_at(ts: Seq<Tok>) -> int {
    let p = vis_len(ts);
    let len = ts.len() as int;
    if p + 4 > len {
        len
    } else if !is_ident(ts[p]) {
        p
    } else if !is_word(ts[p + 1], "for"@) {
        p + 1
    } else if !is_word(ts[p + 2], "trait"@) {
        p + 2
    } else if !is_ident(ts[p + 3]) {
        p + 3
    } else if decl_has_params(ts) && (params_close(ts) >= len || !params_ok(decl_params_toks(ts))) {
        params_at(ts)
    } else if decl_has_where(ts) && !where_ok(
        ts.subrange(decl_where_at(ts) + 1, decl_where_end(ts)),
    ) {
        decl_where_at(ts)
    } else if brace_at(ts) >= len {
        len
    } else if ts[brace_at(ts)] != Tok::Open(Delim::Brace) {
        brace_at(ts)
    } else if brace_close(ts) >= len {
        brace_at(ts)
    } else if brace_close(ts) != len - 1 {
        brace_close(ts) + 1
    } else {
        brace_at(ts) + 1 + first_bad_item(body_toks(ts), 0)
    }
}

/// Parses the tokens of a declaration.
pub fn parse_declaration(ts: &Vec<Tok>) -> (r: Result<Declaration, GenError>)
    ensures
        match r {
            Ok(d) => declaration_ok(ts@) && declaration_is(ts@, d),
            Err(e) => !declaration_ok(ts@) && match e {
                GenError::Syntax { at } => at == syntax_at(ts@) && at <= ts@.len(),
                _ => false,
            },
        },
{
    let len = ts.len();
    let vis = len > 0 && is_word_tok(&ts[0], "pub");
    let p: usize = if vis {
        1
    } else {
        0
    };
    if len < 4 || p > len - 4 {
        return Err(GenError::Syntax { at: len });
    }
    let hlist_trait = match &ts[p] {
        Tok::Ident(n) => n.clone(),
        _ => {
            return Err(GenError::Syntax { at: p });
        },
    };
    if !is_word_tok(&ts[p + 1], "for") {
        return Err(GenError::Syntax { at: p + 1 });
    }
    if !is_word_tok(&ts[p + 2], "trait") {
        return Err(GenError::Syntax { at: p + 2 });
    }
    let base_trait = match &ts[p + 3] {
        Tok::Ident(n) => n.clone(),
        _ => {
            return Err(GenError::Syntax { at: p + 3 });
        },
    };
    let q = p + 4;
    let (trait_generic_params, w) = if q < len && is_punct_tok(&ts[q], '<') {
        let c = scan_from(ts, Stop::AngleClose, q + 1);
        if c >= len {
            return Err(GenError::Syntax { at: q });
        }
        let g = slice(ts, q + 1, c);
        match parse_params(&g) {
            Ok(ps) => (ps, c + 1),
            Err(_) => {
                return Err(GenError::Syntax { at: q });
            },
        }
    } else {
        let g: Vec<Tok> = Vec::new();
        assert(g@ =~= decl_params_toks(ts@));
        match parse_params(&g) {
            Ok(ps) => (ps, q),
            Err(_) => {
                return Err(GenError::Syntax { at: q });
            },
        }
    };
    let (trait_where_clause, b) = if w < len && is_word_tok(&ts[w], "where") {
        let e = scan_from(ts, Stop::Brace, w);
        let where_toks = slice(ts, w, e);
        let preds = slice(ts, w + 1, e);
        if !check_where(&preds) {
            return Err(GenError::Syntax { at: w });
        }
        (Some(render_tokens(&where_toks)), e)
    } else {
        (None, w)
    };
    if b >= len {
        return Err(GenError::Syntax { at: len });
    }
    match &ts[b] {
        Tok::Open(Delim::Brace) => {},
        _ => {
            return Err(GenError::Syntax { at: b });
        },
    }
    let c = scan_from(ts, Stop::GroupClose, b + 1);
    if c >= len {
        return Err(GenError::Syntax { at: b });
    }
    if c != len - 1 {
        return Err(GenError::Syntax { at: c + 1 });
    }
    let body = slice(ts, b + 1, c);
    let items = match parse_items(&body) {
        Ok(xs) => xs,
        Err(at) => {
            return Err(GenError::Syntax { at: b + 1 + at });
        },
    };
    Ok(Declaration { vis, hlist_trait, base_trait, trait_generic_params, trait_where_clause, items })
}
} // verus!
