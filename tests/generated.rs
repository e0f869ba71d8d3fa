// The code below follows the shape of what the generator emits for each
// declaration, written by hand over this crate's list cells in place of
// `hlist2`'s. `generated_bodies_match_the_generator` compares the first of
// these with the generator's own output.
use trait_hlist::{
    expand_declaration, Cons, Declaration, FnArg, Nil, TraitItem, TraitItemFn,
};

fn method(name: &str, output: &str) -> TraitItem {
    TraitItem::Fn(TraitItemFn {
        attrs: vec![],
        ident: name.to_string(),
        generics: vec![],
        inputs: vec![FnArg::Receiver("&self".to_string())],
        output: Some(output.to_string()),
        where_clause: None,
        has_default: false,
    })
}

#[test]
fn generated_bodies_match_the_generator() {
    let out = expand_declaration(Declaration {
        vis: true,
        hlist_trait: "MyTraitHlist".to_string(),
        base_trait: "MyTrait".to_string(),
        trait_generic_params: vec![],
        trait_where_clause: None,
        items: vec![method("to_u32", "u32"), method("to_bool", "bool")],
    })
    .unwrap();
    // the same text once the paths name this crate's cells and empty
    // generic lists are left out
    let out = out.replace("hlist2::", "").replace("<>", "");
    for piece in [
        "pub trait MyTraitHlist { type TO_U32HListOutput; fn to_u32(&self) -> Self::TO_U32HListOutput;",
        "fn to_bool_at_index(&self, __hlist_index: usize) -> bool;",
        "fn all_to_bool(&self) -> bool; fn any_to_bool(&self) -> bool;",
        "#[allow(unused_variables)] impl MyTraitHlist for Nil {",
        "type TO_U32HListOutput = Nil; fn to_u32(&self) -> Self::TO_U32HListOutput { Nil }",
        "fn to_u32_at_index(&self, __hlist_index: usize) -> u32 { panic!(\"Index out of bounds, expected {__hlist_index} more items in the list.\") }",
        "fn all_to_bool(&self) -> bool { true } fn any_to_bool(&self) -> bool { false }",
        "impl<__HListHead: MyTrait, __HListTail: MyTraitHlist> MyTraitHlist for Cons<__HListHead, __HListTail> {",
        "type TO_U32HListOutput = Cons<u32, __HListTail::TO_U32HListOutput>;",
        "fn to_u32(&self) -> Self::TO_U32HListOutput { let Cons(__hlist_head, __hlist_tail) = self; Cons(__hlist_head.to_u32(), __hlist_tail.to_u32()) }",
        "fn to_u32_at_index(&self, __hlist_index: usize) -> u32 { let Cons(__hlist_head, __hlist_tail) = self; if __hlist_index == 0 { __hlist_head.to_u32() } else { __hlist_tail.to_u32_at_index(__hlist_index - 1) } }",
        "fn all_to_bool(&self) -> bool { let Cons(__hlist_head, __hlist_tail) = self; __hlist_head.to_bool() && __hlist_tail.all_to_bool() }",
        "fn any_to_bool(&self) -> bool { let Cons(__hlist_head, __hlist_tail) = self; __hlist_head.to_bool() || __hlist_tail.any_to_bool() }",
    ] {
        assert!(out.contains(piece), "missing: {piece}");
    }
}

#[test]
fn simple_trait() {
    #[allow(dead_code)]
    trait MyTrait {
        fn to_u32(&self) -> u32;
        fn to_bool(&self) -> bool;
    }

    impl MyTrait for bool {
        fn to_u32(&self) -> u32 {
            *self as u32
        }
        fn to_bool(&self) -> bool {
            *self
        }
    }

    impl MyTrait for i32 {
        fn to_u32(&self) -> u32 {
            *self as u32
        }
        fn to_bool(&self) -> bool {
            *self != 0
        }
    }

    pub trait MyTraitHlist {
        type TO_U32HListOutput;
        fn to_u32(&self) -> Self::TO_U32HListOutput;
        type TO_BOOLHListOutput;
        fn to_bool(&self) -> Self::TO_BOOLHListOutput;
        fn to_u32_at_index(&self, __hlist_index: usize) -> u32;
        fn to_bool_at_index(&self, __hlist_index: usize) -> bool;
        fn all_to_bool(&self) -> bool;
        fn any_to_bool(&self) -> bool;
    }

    #[allow(unused_variables)]
    impl MyTraitHlist for Nil {
        type TO_U32HListOutput = Nil;
        fn to_u32(&self) -> Self::TO_U32HListOutput {
            Nil
        }
        type TO_BOOLHListOutput = Nil;
        fn to_bool(&self) -> Self::TO_BOOLHListOutput {
            Nil
        }
        fn to_u32_at_index(&self, __hlist_index: usize) -> u32 {
            panic!("Index out of bounds, expected {__hlist_index} more items in the list.")
        }
        fn to_bool_at_index(&self, __hlist_index: usize) -> bool {
            panic!("Index out of bounds, expected {__hlist_index} more items in the list.")
        }
        fn all_to_bool(&self) -> bool {
            true
        }
        fn any_to_bool(&self) -> bool {
            false
        }
    }

    impl<__HListHead: MyTrait, __HListTail: MyTraitHlist> MyTraitHlist for Cons<__HListHead, __HListTail> {
        type TO_U32HListOutput = Cons<u32, __HListTail::TO_U32HListOutput>;
        fn to_u32(&self) -> Self::TO_U32HListOutput {
            let Cons(__hlist_head, __hlist_tail) = self;
            Cons(__hlist_head.to_u32(), __hlist_tail.to_u32())
        }
        type TO_BOOLHListOutput = Cons<bool, __HListTail::TO_BOOLHListOutput>;
        fn to_bool(&self) -> Self::TO_BOOLHListOutput {
            let Cons(__hlist_head, __hlist_tail) = self;
            Cons(__hlist_head.to_bool(), __hlist_tail.to_bool())
        }
        fn to_u32_at_index(&self, __hlist_index: usize) -> u32 {
            let Cons(__hlist_head, __hlist_tail) = self;
            if __hlist_index == 0 {
                __hlist_head.to_u32()
            } else {
                __hlist_tail.to_u32_at_index(__hlist_index - 1)
            }
        }
        fn to_bool_at_index(&self, __hlist_index: usize) -> bool {
            let Cons(__hlist_head, __hlist_tail) = self;
            if __hlist_index == 0 {
                __hlist_head.to_bool()
            } else {
                __hlist_tail.to_bool_at_index(__hlist_index - 1)
            }
        }
        fn all_to_bool(&self) -> bool {
            let Cons(__hlist_head, __hlist_tail) = self;
            __hlist_head.to_bool() && __hlist_tail.all_to_bool()
        }
        fn any_to_bool(&self) -> bool {
            let Cons(__hlist_head, __hlist_tail) = self;
            __hlist_head.to_bool() || __hlist_tail.any_to_bool()
        }
    }

    let l = Cons(false, Cons(true, Cons(0, Cons(10, Nil))));
    assert_eq!(Cons(0, Cons(1, Cons(0, Cons(10, Nil)))), l.to_u32());
    assert_eq!(Cons(false, Cons(true, Cons(false, Cons(true, Nil)))), l.to_bool());
    assert!(!l.all_to_bool());
    assert!(l.any_to_bool());
    assert!(!Cons(false, Cons(0, Cons(false, Nil))).any_to_bool());
    assert!(Cons(true, Cons(1, Cons(true, Nil))).all_to_bool());
    assert!(!Cons(false, Cons(false, Nil)).any_to_bool());
    assert!(Cons(true, Cons(true, Nil)).all_to_bool());
    assert_eq!(l.to_u32_at_index(3), 10);
    assert!(l.to_bool_at_index(1));
    assert!(Nil.all_to_bool());
    assert!(!Nil.any_to_bool());
}

pub trait Push<T> {
    fn push(&mut self, v: &mut Vec<T>);
}

impl Push<i32> for i32 {
    fn push(&mut self, v: &mut Vec<i32>) {
        *self += 10;
        v.push(*self);
    }
}

trait PushHList<T> {
    type PUSHHListOutput;
    fn push(&mut self, v: &mut Vec<T>) -> Self::PUSHHListOutput;
    fn push_at_index(&mut self, v: &mut Vec<T>, __hlist_index: usize);
}

#[allow(unused_variables)]
impl<T> PushHList<T> for Nil {
    type PUSHHListOutput = Nil;
    fn push(&mut self, v: &mut Vec<T>) -> Self::PUSHHListOutput {
        Nil
    }
    fn push_at_index(&mut self, v: &mut Vec<T>, __hlist_index: usize) {
        panic!("Index out of bounds, expected {__hlist_index} more items in the list.")
    }
}

impl<T, __HListHead: Push<T>, __HListTail: PushHList<T>> PushHList<T> for Cons<__HListHead, __HListTail> {
    type PUSHHListOutput = Cons<(), __HListTail::PUSHHListOutput>;
    fn push(&mut self, v: &mut Vec<T>) -> Self::PUSHHListOutput {
        let Cons(__hlist_head, __hlist_tail) = self;
        Cons(__hlist_head.push(v), __hlist_tail.push(v))
    }
    fn push_at_index(&mut self, v: &mut Vec<T>, __hlist_index: usize) {
        let Cons(__hlist_head, __hlist_tail) = self;
        if __hlist_index == 0 {
            __hlist_head.push(v)
        } else {
            __hlist_tail.push_at_index(v, __hlist_index - 1)
        }
    }
}

#[test]
fn push() {
    let mut v = vec![];
    let mut h = Cons(0, Cons(1, Cons(2, Cons(3, Nil))));
    let len: usize = 4;
    for i in 0..len {
        h.push_at_index(&mut v, i)
    }
    for i in 0..len {
        h.push_at_index(&mut v, i)
    }
    assert_eq!(v, vec![10, 11, 12, 13, 20, 21, 22, 23]);
}

#[test]
fn push_whole_list_in_order() {
    let mut v = vec![];
    let mut h = Cons(0, Cons(1, Cons(2, Cons(3, Nil))));
    h.push(&mut v);
    assert_eq!(v, vec![10, 11, 12, 13]);
    assert_eq!(h, Cons(10, Cons(11, Cons(12, Cons(13, Nil)))));
}

pub trait IndexMax<S> {
    fn index_max(&self, index: &mut usize, max_index: &mut usize, max: &mut S);
}

impl IndexMax<i32> for i32 {
    fn index_max(&self, index: &mut usize, max_index: &mut usize, max: &mut i32) {
        if self > max {
            *max = *self;
            *max_index = *index;
        }
        *index += 1;
    }
}

trait IndexMaxHList<S> {
    type INDEX_MAXHListOutput;
    fn index_max(&self, index: &mut usize, max_index: &mut usize, max: &mut S) -> Self::INDEX_MAXHListOutput;
}

#[allow(unused_variables)]
impl<S> IndexMaxHList<S> for Nil {
    type INDEX_MAXHListOutput = Nil;
    fn index_max(&self, index: &mut usize, max_index: &mut usize, max: &mut S) -> Self::INDEX_MAXHListOutput {
        Nil
    }
}

impl<S, __HListHead: IndexMax<S>, __HListTail: IndexMaxHList<S>> IndexMaxHList<S> for Cons<__HListHead, __HListTail> {
    type INDEX_MAXHListOutput = Cons<(), __HListTail::INDEX_MAXHListOutput>;
    fn index_max(&self, index: &mut usize, max_index: &mut usize, max: &mut S) -> Self::INDEX_MAXHListOutput {
        let Cons(__hlist_head, __hlist_tail) = self;
        Cons(__hlist_head.index_max(index, max_index, max), __hlist_tail.index_max(index, max_index, max))
    }
}

trait IntoF64 {
    fn into(self) -> f64;
}

impl IntoF64 for i32 {
    fn into(self) -> f64 {
        self as f64
    }
}

trait IntoHlist {
    type INTOHListOutput;
    fn hlist_into(self) -> Self::INTOHListOutput;
    fn hlist_into_at_index(self, __hlist_index: usize) -> f64;
}

#[allow(unused_variables)]
impl IntoHlist for Nil {
    type INTOHListOutput = Nil;
    fn hlist_into(self) -> Self::INTOHListOutput {
        Nil
    }
    fn hlist_into_at_index(self, __hlist_index: usize) -> f64 {
        panic!("Index out of bounds, expected {__hlist_index} more items in the list.")
    }
}

impl<__HListHead: IntoF64, __HListTail: IntoHlist> IntoHlist for Cons<__HListHead, __HListTail> {
    type INTOHListOutput = Cons<f64, __HListTail::INTOHListOutput>;
    fn hlist_into(self) -> Self::INTOHListOutput {
        let Cons(__hlist_head, __hlist_tail) = self;
        Cons(__hlist_head.into(), __hlist_tail.hlist_into())
    }
    fn hlist_into_at_index(self, __hlist_index: usize) -> f64 {
        let Cons(__hlist_head, __hlist_tail) = self;
        if __hlist_index == 0 {
            __hlist_head.into()
        } else {
            __hlist_tail.hlist_into_at_index(__hlist_index - 1)
        }
    }
}

#[test]
fn find_maximum() {
    let h = Cons(0, Cons(2, Cons(4, Cons(6, Cons(8, Cons(10, Cons(10, Cons(8, Cons(6, Cons(4, Cons(2, Cons(0, Nil))))))))))));

    let mut max_index = 0;
    let mut max = -1;

    h.index_max(&mut 0, &mut max_index, &mut max);
    assert_eq!(max_index, 5);
    assert_eq!(max, 10);

    assert_eq!(h.hlist_into_at_index(max_index), 10f64);
}

trait Scale {
    fn scale(&self, factor: u32, calls: &mut Vec<u32>) -> u32;
}

impl Scale for u32 {
    fn scale(&self, factor: u32, calls: &mut Vec<u32>) -> u32 {
        calls.push(*self);
        *self * factor
    }
}

impl Scale for u8 {
    fn scale(&self, factor: u32, calls: &mut Vec<u32>) -> u32 {
        calls.push(*self as u32);
        *self as u32 * factor + 1
    }
}

trait ScaleHList {
    type SCALEHListOutput;
    fn scale(&self, factor: u32, calls: &mut Vec<u32>) -> Self::SCALEHListOutput;
}

#[allow(unused_variables)]
impl ScaleHList for Nil {
    type SCALEHListOutput = Nil;
    fn scale(&self, factor: u32, calls: &mut Vec<u32>) -> Self::SCALEHListOutput {
        Nil
    }
}

impl<__HListHead: Scale, __HListTail: ScaleHList> ScaleHList for Cons<__HListHead, __HListTail> {
    type SCALEHListOutput = Cons<u32, __HListTail::SCALEHListOutput>;
    fn scale(&self, factor: u32, calls: &mut Vec<u32>) -> Self::SCALEHListOutput {
        let Cons(__hlist_head, __hlist_tail) = self;
        Cons(__hlist_head.scale(Clone::clone(&factor), calls), __hlist_tail.scale(factor, calls))
    }
}

#[test]
fn value_argument_reaches_every_element() {
    let h = Cons(1u32, Cons(2u8, Cons(3u32, Cons(4u8, Nil))));
    let mut calls = vec![];
    let out = h.scale(10, &mut calls);
    assert_eq!(out, Cons(10, Cons(21, Cons(30, Cons(41, Nil)))));
    assert_eq!(calls, vec![1, 2, 3, 4]);
}

trait Probe {
    fn check(&self, seen: &mut Vec<u32>) -> bool;
}

impl Probe for u32 {
    fn check(&self, seen: &mut Vec<u32>) -> bool {
        seen.push(*self);
        *self % 2 == 0
    }
}

trait ProbeHList {
    type CHECKHListOutput;
    fn check(&self, seen: &mut Vec<u32>) -> Self::CHECKHListOutput;
    fn all_check(&self, seen: &mut Vec<u32>) -> bool;
    fn any_check(&self, seen: &mut Vec<u32>) -> bool;
}

#[allow(unused_variables)]
impl ProbeHList for Nil {
    type CHECKHListOutput = Nil;
    fn check(&self, seen: &mut Vec<u32>) -> Self::CHECKHListOutput {
        Nil
    }
    fn all_check(&self, seen: &mut Vec<u32>) -> bool {
        true
    }
    fn any_check(&self, seen: &mut Vec<u32>) -> bool {
        false
    }
}

impl<__HListHead: Probe, __HListTail: ProbeHList> ProbeHList for Cons<__HListHead, __HListTail> {
    type CHECKHListOutput = Cons<bool, __HListTail::CHECKHListOutput>;
    fn check(&self, seen: &mut Vec<u32>) -> Self::CHECKHListOutput {
        let Cons(__hlist_head, __hlist_tail) = self;
        Cons(__hlist_head.check(seen), __hlist_tail.check(seen))
    }
    fn all_check(&self, seen: &mut Vec<u32>) -> bool {
        let Cons(__hlist_head, __hlist_tail) = self;
        __hlist_head.check(seen) && __hlist_tail.all_check(seen)
    }
    fn any_check(&self, seen: &mut Vec<u32>) -> bool {
        let Cons(__hlist_head, __hlist_tail) = self;
        __hlist_head.check(seen) || __hlist_tail.any_check(seen)
    }
}

#[test]
fn aggregates_stop_at_the_deciding_element() {
    let h = Cons(2u32, Cons(4u32, Cons(5u32, Cons(6u32, Nil))));
    let mut seen = vec![];
    assert!(!h.all_check(&mut seen));
    assert_eq!(seen, vec![2, 4, 5]);

    let mut seen = vec![];
    assert!(h.any_check(&mut seen));
    assert_eq!(seen, vec![2]);

    let odd = Cons(1u32, Cons(3u32, Nil));
    let mut seen = vec![];
    assert!(!odd.any_check(&mut seen));
    assert_eq!(seen, vec![1, 3]);

    let mut seen = vec![];
    assert!(Nil.all_check(&mut seen));
    assert!(!Nil.any_check(&mut seen));
    assert!(seen.is_empty());

    let mut seen = vec![];
    assert_eq!(h.check(&mut seen), Cons(true, Cons(true, Cons(false, Cons(true, Nil)))));
    assert_eq!(seen, vec![2, 4, 5, 6]);
}
