//! A model of what the generated methods compute, stated over the results
//! that the base method gives on each element of a list, in list order.
//!
//! Each function below is written after the two bodies that `expand_text`
//! fixes for a method: the one for `Nil`, and the one for a `Cons` cell,
//! which handles the head and recurses into the tail. The model is a reading
//! of that text; no proof connects the two, since the emitted code is only
//! text here and is checked by the compiler that builds it.
use vstd::prelude::*;

verus! {

/// The lifted method: `Nil` for the empty list; for a cell, the head's result
/// in a cell before the tail's lifted results.
pub open spec fn lifted<R>(rs: Seq<R>) -> Seq<R>
    decreases rs.len(),
{
    if rs.len() == 0 {
        Seq::empty()
    } else {
        seq![rs[0]] + lifted(rs.drop_first())
    }
}

/// The at-index method: `None` where the empty list is reached, which fails;
/// for a cell, the head's result at index zero, else the tail's at the index
/// less one.
pub open spec fn at_index<R>(rs: Seq<R>, i: nat) -> Option<R>
    decreases rs.len(),
{
    if rs.len() == 0 {
        None
    } else if i == 0 {
        Some(rs[0])
    } else {
        at_index(rs.drop_first(), (i - 1) as nat)
    }
}

/// The `all_` method: `true` for the empty list; for a cell, the head's
/// result `&&` the tail's `all_`.
pub open spec fn all_of(rs: Seq<bool>) -> bool
    decreases rs.len(),
{
    if rs.len() == 0 {
        true
    } else {
        rs[0] && all_of(rs.drop_first())
    }
}

/// The `any_` method: `false` for the empty list; for a cell, the head's
/// result `||` the tail's `any_`.
pub open spec fn any_of(rs: Seq<bool>) -> bool
    decreases rs.len(),
{
    if rs.len() == 0 {
        false
    } else {
        rs[0] || any_of(rs.drop_first())
    }
}

/// How many elements the `all_` method calls the base method on: the right
/// operand of `&&` is skipped once the head gives `false`.
pub open spec fn all_calls(rs: Seq<bool>) -> nat
    decreases rs.len(),
{
    if rs.len() == 0 {
        0
    } else if !rs[0] {
        1
    } else {
        1 + all_calls(rs.drop_first())
    }
}

/// How many elements the `any_` method calls the base method on: the right
/// operand of `||` is skipped once the head gives `true`.
pub open spec fn any_calls(rs: Seq<bool>) -> nat
    decreases rs.len(),
{
    if rs.len() == 0 {
        0
    } else if rs[0] {
        1
    } else {
        1 + any_calls(rs.drop_first())
    }
}

/// Positional access gives exactly the result of the base method on the
/// element at that index, and fails at any index past the end.
pub proof fn lemma_at_index<R>(rs: Seq<R>, i: nat)
    ensures
        i < rs.len() ==> at_index(rs, i) == Some(rs[i as int]),
        i >= rs.len() ==> at_index(rs, i) == None::<R>,
    decreases rs.len(),
{
    if rs.len() > 0 && i > 0 {
        lemma_at_index(rs.drop_first(), (i - 1) as nat);
    }
}

/// On the empty list `all_` is true and `any_` is false, and neither calls
/// the base method.
pub proof fn lemma_empty_identities()
    ensures
        all_of(Seq::empty()),
        !any_of(Seq::empty()),
        all_calls(Seq::empty()) == 0,
        any_calls(Seq::empty()) == 0,
{
}

/// `all_` is the conjunction and `any_` the disjunction of the elements'
/// results; both evaluate left to right and stop at the first element that
/// settles the answer.
pub proof fn lemma_fold_consistency(rs: Seq<bool>)
    ensures
        all_of(rs) == (forall|j: int| 0 <= j < rs.len() ==> rs[j]),
        any_of(rs) == (exists|j: int| 0 <= j < rs.len() && rs[j]),
        all_calls(rs) <= rs.len(),
        rs.len() > 0 ==> all_calls(rs) > 0,
        forall|j: int| 0 <= j < all_calls(rs) - 1 ==> rs[j],
        all_calls(rs) < rs.len() ==> !rs[all_calls(rs) - 1],
        any_calls(rs) <= rs.len(),
        rs.len() > 0 ==> any_calls(rs) > 0,
        forall|j: int| 0 <= j < any_calls(rs) - 1 ==> !rs[j],
        any_calls(rs) < rs.len() ==> rs[any_calls(rs) - 1],
    decreases rs.len(),
{
    if rs.len() > 0 {
        let t = rs.drop_first();
        lemma_fold_consistency(t);
        assert forall|j: int| 1 <= j < rs.len() implies rs[j] == t[j - 1] by {}
        if forall|j: int| 0 <= j < rs.len() ==> rs[j] {
            assert forall|j: int| 0 <= j < t.len() implies t[j] by {
                assert(rs[j + 1]);
            }
        }
        if exists|j: int| 0 <= j < t.len() && t[j] {
            let j = choose|j: int| 0 <= j < t.len() && t[j];
            assert(rs[j + 1]);
        }
        if exists|j: int| 0 <= j < rs.len() && rs[j] {
            let j = choose|j: int| 0 <= j < rs.len() && rs[j];
            if j > 0 {
                assert(t[j - 1]);
            }
        }
        assert forall|j: int| 0 <= j < all_calls(rs) - 1 implies rs[j] by {
            if j > 0 {
                assert(t[j - 1]);
            }
        }
        assert forall|j: int| 0 <= j < any_calls(rs) - 1 implies !rs[j] by {
            if j > 0 {
                assert(!t[j - 1]);
            }
        }
    }
}

/// The lifted method's results stand in the order of the elements.
pub proof fn lemma_order_preserved<R>(rs: Seq<R>)
    ensures
        lifted(rs) == rs,
    decreases rs.len(),
{
    if rs.len() > 0 {
        lemma_order_preserved(rs.drop_first());
        assert(seq![rs[0]] + rs.drop_first() =~= rs);
    }
}

} // verus!
