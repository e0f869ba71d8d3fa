//! Declarations arrive as a flat sequence of tokens: a delimited group is
//! written as its opening delimiter, its contents and its closing delimiter.
use vstd::prelude::*;

verus! {

/// Delimiter of a token group.
#[derive(PartialEq, Eq, Structural, Clone, Copy, Debug)]
pub enum Delim {
    Paren,
    Bracket,
    Brace,
    /// An invisible delimiter.
    Invisible,
}

/// One token.
#[derive(Debug)]
pub enum Tok {
    Ident(String),
    /// A punctuation character; `joint` when the next character belongs to
    /// the same operator (the `-` of `->`, the `'` of a lifetime).
    Punct { ch: char, joint: bool },
    Literal(String),
    Open(Delim),
    Close(Delim),
}

impl Clone for Tok {
    fn clone(&self) -> (r: Self)
        ensures
            r == *self,
    {
        match self {
            Tok::Ident(s) => Tok::Ident(s.clone()),
            Tok::Punct { ch, joint } => Tok::Punct { ch: *ch, joint: *joint },
            Tok::Literal(s) => Tok::Literal(s.clone()),
            Tok::Open(d) => Tok::Open(*d),
            Tok::Close(d) => Tok::Close(*d),
        }
    }
}

/// Whether `t` is the identifier `w`.
pub open spec fn is_word(t: Tok, w: Seq<char>) -> bool {
    match t {
        Tok::Ident(s) => s@ == w,
        _ => false,
    }
}

pub open spec fn is_ident(t: Tok) -> bool {
    t is Ident
}

/// Whether `t` is the punctuation character `c`.
pub open spec fn is_punct(t: Tok, c: char) -> bool {
    match t {
        Tok::Punct { ch, .. } => ch == c,
        _ => false,
    }
}

pub open spec fn is_joint(t: Tok) -> bool {
    match t {
        Tok::Punct { joint, .. } => joint,
        _ => false,
    }
}

/// Text of one token.
pub open spec fn tok_text(t: Tok) -> Seq<char> {
    match t {
        Tok::Ident(s) => s@,
        Tok::Punct { ch, .. } => seq![ch],
        Tok::Literal(s) => s@,
        Tok::Open(d) => match d {
            Delim::Paren => "("@,
            Delim::Bracket => "["@,
            Delim::Brace => "{"@,
            Delim::Invisible => Seq::empty(),
        },
        Tok::Close(d) => match d {
            Delim::Paren => ")"@,
            Delim::Bracket => "]"@,
            Delim::Brace => "}"@,
            Delim::Invisible => Seq::empty(),
        },
    }
}

/// Space written between two neighbouring tokens: none after a joint
/// punctuation or an opening delimiter, nor before a closing delimiter or a
/// comma.
pub open spec fn gap(a: Tok, b: Tok) -> Seq<char> {
    if is_joint(a) || a is Open || b is Close || is_punct(b, ',') {
        Seq::empty()
    } else {
        " "@
    }
}

/// Text of a token sequence.
pub open spec fn render(ts: Seq<Tok>) -> Seq<char>
    decreases ts.len(),
{
    if ts.len() == 0 {
        Seq::empty()
    } else if ts.len() == 1 {
        tok_text(ts[0])
    } else {
        render(ts.drop_last()) + gap(ts[ts.len() - 2], ts.last()) + tok_text(ts.last())
    }
}

/// Where a scan stops.
#[derive(PartialEq, Eq, Structural, Clone, Copy)]
pub enum Stop {
    Comma,
    /// A `>` that closes an angle bracket.
    AngleClose,
    /// Any closing delimiter; angle brackets are not counted.
    GroupClose,
    /// A `;` or an opening brace.
    SemiOrBrace,
    /// An opening brace.
    Brace,
    /// The word `where` or an opening brace.
    WhereOrBrace,
    /// A `:` that is not part of `::`.
    Colon,
    Eq,
}

/// A `>` that is not the end of `->`.
pub open spec fn is_angle_close(ts: Seq<Tok>, j: int) -> bool {
    is_punct(ts[j], '>') && !(j > 0 && is_punct(ts[j - 1], '-') && is_joint(ts[j - 1]))
}

/// Change of nesting depth at token `j`.
pub open spec fn delta(k: Stop, ts: Seq<Tok>, j: int) -> int {
    match ts[j] {
        Tok::Open(_) => 1,
        Tok::Close(_) => -1,
        _ => if k == Stop::GroupClose {
            0
        } else if is_punct(ts[j], '<') {
            1
        } else if is_angle_close(ts, j) {
            -1
        } else {
            0
        },
    }
}

/// Whether token `j` is one where a scan of kind `k` stops, at depth zero.
pub open spec fn stops(k: Stop, ts: Seq<Tok>, j: int) -> bool {
    match k {
        Stop::Comma => is_punct(ts[j], ','),
        Stop::AngleClose => is_angle_close(ts, j),
        Stop::GroupClose => ts[j] is Close,
        Stop::SemiOrBrace => is_punct(ts[j], ';') || ts[j] == Tok::Open(Delim::Brace),
        Stop::Brace => ts[j] == Tok::Open(Delim::Brace),
        Stop::WhereOrBrace => is_word(ts[j], "where"@) || ts[j] == Tok::Open(Delim::Brace),
        Stop::Colon => is_punct(ts[j], ':') && !is_joint(ts[j]) && !(j > 0 && is_punct(
            ts[j - 1],
            ':',
        ) && is_joint(ts[j - 1])),
        Stop::Eq => is_punct(ts[j], '='),
    }
}

/// First position at or after `i` where a scan of kind `k` stops, with the
/// depth reached so far being `depth`; `ts.len()` where none is.
pub open spec fn scan(ts: Seq<Tok>, k: Stop, i: int, depth: int) -> int
    decreases ts.len() - i,
{
    if i >= ts.len() || i < 0 {
        ts.len() as int
    } else if depth == 0 && stops(k, ts, i) {
        i
    } else {
        scan(ts, k, i + 1, depth + delta(k, ts, i))
    }
}

/// The pieces of `ts` from `i` on, between the stops of a scan of kind `k`.
pub open spec fn pieces(ts: Seq<Tok>, k: Stop, i: int) -> Seq<Seq<Tok>>
    decreases ts.len() - i,
{
    let j = scan(ts, k, i, 0);
    if i < 0 || i > ts.len() || j >= ts.len() || j < i {
        seq![ts.subrange(i, ts.len() as int)]
    } else {
        seq![ts.subrange(i, j)] + pieces(ts, k, j + 1)
    }
}

/// Comma-separated pieces, an empty last piece (after a trailing comma, or
/// of an empty sequence) left out.
pub open spec fn comma_list(ts: Seq<Tok>) -> Seq<Seq<Tok>> {
    let ps = pieces(ts, Stop::Comma, 0);
    if ps.last().len() == 0 {
        ps.drop_last()
    } else {
        ps
    }
}

/// There is always at least one piece.
pub proof fn lemma_pieces_nonempty(ts: Seq<Tok>, k: Stop, i: int)
    ensures
        pieces(ts, k, i).len() >= 1,
{
}

proof fn lemma_scan_bounds(ts: Seq<Tok>, k: Stop, i: int, depth: int)
    requires
        0 <= i <= ts.len(),
    ensures
        i <= scan(ts, k, i, depth) <= ts.len(),
        scan(ts, k, i, depth) < ts.len() ==> stops(k, ts, scan(ts, k, i, depth)),
    decreases ts.len() - i,
{
    if i < ts.len() && !(depth == 0 && stops(k, ts, i)) {
        lemma_scan_bounds(ts, k, i + 1, depth + delta(k, ts, i));
    }
}

pub fn is_punct_tok(t: &Tok, c: char) -> (r: bool)
    ensures
        r == is_punct(*t, c),
{
    match t {
        Tok::Punct { ch, .. } => *ch == c,
        _ => false,
    }
}

pub fn is_joint_tok(t: &Tok) -> (r: bool)
    ensures
        r == is_joint(*t),
{
    match t {
        Tok::Punct { joint, .. } => *joint,
        _ => false,
    }
}

pub fn is_word_tok(t: &Tok, w: &str) -> (r: bool)
    ensures
        r == is_word(*t, w@),
{
    match t {
        Tok::Ident(s) => *s == String::from_str(w),
        _ => false,
    }
}

fn is_open_brace(t: &Tok) -> (r: bool)
    ensures
        r == (*t == Tok::Open(Delim::Brace)),
{
    match t {
        Tok::Open(Delim::Brace) => true,
        _ => false,
    }
}

fn is_angle_close_at(ts: &Vec<Tok>, j: usize) -> (r: bool)
    requires
        j < ts@.len(),
    ensures
        r == is_angle_close(ts@, j as int),
{
    is_punct_tok(&ts[j], '>') && !(j > 0 && is_punct_tok(&ts[j - 1], '-') && is_joint_tok(
        &ts[j - 1],
    ))
}

pub fn delta_of(k: Stop, ts: &Vec<Tok>, j: usize) -> (r: i8)
    requires
        j < ts@.len(),
    ensures
        r as int == delta(k, ts@, j as int),
{
    match &ts[j] {
        Tok::Open(_) => 1,
        Tok::Close(_) => -1,
        _ => if k == Stop::GroupClose {
            0
        } else if is_punct_tok(&ts[j], '<') {
            1
        } else if is_angle_close_at(ts, j) {
            -1
        } else {
            0
        },
    }
}

fn stops_at(k: Stop, ts: &Vec<Tok>, j: usize) -> (r: bool)
    requires
        j < ts@.len(),
    ensures
        r == stops(k, ts@, j as int),
{
    let t = &ts[j];
    match k {
        Stop::Comma => is_punct_tok(t, ','),
        Stop::AngleClose => is_angle_close_at(ts, j),
        Stop::GroupClose => match t {
            Tok::Close(_) => true,
            _ => false,
        },
        Stop::SemiOrBrace => is_punct_tok(t, ';') || is_open_brace(t),
        Stop::Brace => is_open_brace(t),
        Stop::WhereOrBrace => is_word_tok(t, "where") || is_open_brace(t),
        Stop::Colon => is_punct_tok(t, ':') && !is_joint_tok(t) && !(j > 0 && is_punct_tok(
            &ts[j - 1],
            ':',
        ) && is_joint_tok(&ts[j - 1])),
        Stop::Eq => is_punct_tok(t, '='),
    }
}

/// First position at or after `i` where a scan of kind `k` stops.
pub fn scan_from(ts: &Vec<Tok>, k: Stop, i: usize) -> (r: usize)
    requires
        i <= ts@.len(),
    ensures
        r == scan(ts@, k, i as int, 0),
        i <= r <= ts@.len(),
        r < ts@.len() ==> stops(k, ts@, r as int),
{
    proof {
        lemma_scan_bounds(ts@, k, i as int, 0);
    }
    let mut j = i;
    let mut depth: i128 = 0;
    while j < ts.len()
        invariant
            i <= j <= ts@.len(),
            -(j as int) <= depth <= j as int,
            scan(ts@, k, i as int, 0) == scan(ts@, k, j as int, depth as int),
        decreases ts@.len() - j,
    {
        if depth == 0 && stops_at(k, ts, j) {
            return j;
        }
        let d = delta_of(k, ts, j);
        depth = depth + d as i128;
        j += 1;
    }
    j
}

/// Tokens `a` to `b` of `ts`.
pub fn slice(ts: &Vec<Tok>, a: usize, b: usize) -> (r: Vec<Tok>)
    requires
        a <= b <= ts@.len(),
    ensures
        r@ == ts@.subrange(a as int, b as int),
{
    let mut out: Vec<Tok> = Vec::new();
    let mut i = a;
    while i < b
        invariant
            a <= i <= b,
            b <= ts@.len(),
            out@ == ts@.subrange(a as int, i as int),
        decreases b - i,
    {
        out.push(ts[i].clone());
        proof {
            assert(out@ =~= ts@.subrange(a as int, i + 1));
        }
        i += 1;
    }
    out
}

/// Relies on `String::from(char)`: a string of that one character.
#[verifier::external_body]
fn char_string(c: char) -> (r: String)
    ensures
        r@ == seq![c],
{
    String::from(c)
}

fn tok_string(t: &Tok) -> (r: String)
    ensures
        r@ == tok_text(*t),
{
    match t {
        Tok::Ident(s) => s.clone(),
        Tok::Punct { ch, .. } => char_string(*ch),
        Tok::Literal(s) => s.clone(),
        Tok::Open(d) => match d {
            Delim::Paren => String::from_str("("),
            Delim::Bracket => String::from_str("["),
            Delim::Brace => String::from_str("{"),
            Delim::Invisible => String::new(),
        },
        Tok::Close(d) => match d {
            Delim::Paren => String::from_str(")"),
            Delim::Bracket => String::from_str("]"),
            Delim::Brace => String::from_str("}"),
            Delim::Invisible => String::new(),
        },
    }
}

/// Text of a token sequence.
pub fn render_tokens(ts: &Vec<Tok>) -> (r: String)
    ensures
        r@ == render(ts@),
{
    let mut out = String::new();
    let mut i: usize = 0;
    while i < ts.len()
        invariant
            i <= ts@.len(),
            out@ == render(ts@.take(i as int)),
        decreases ts@.len() - i,
    {
        proof {
            assert(ts@.take(i + 1).drop_last() =~= ts@.take(i as int));
        }
        if i > 0 {
            let a = &ts[i - 1];
            let b = &ts[i];
            let glued = is_joint_tok(a) || match a {
                Tok::Open(_) => true,
                _ => false,
            } || match b {
                Tok::Close(_) => true,
                _ => false,
            } || is_punct_tok(b, ',');
            if !glued {
                out.append(" ");
            }
        }
        let t = tok_string(&ts[i]);
        out.append(t.as_str());
        proof {
            if i > 0 {
                assert(out@ =~= render(ts@.take(i + 1)));
            } else {
                assert(out@ =~= render(ts@.take(i + 1)));
            }
        }
        i += 1;
    }
    assert(ts@.take(ts@.len() as int) =~= ts@);
    out
}

} // verus!
