use vstd::prelude::*;

verus! {

/// Heterogeneous list cell: a head value followed by a tail, which is
/// another heterogeneous list.
#[derive(Debug, PartialEq, Eq, PartialOrd, Ord, Clone, Copy, Hash, Default)]
pub struct Cons<Head, Tail>(pub Head, pub Tail);

/// The empty heterogeneous list.
#[derive(Debug, PartialEq, Eq, PartialOrd, Ord, Clone, Copy, Hash, Default)]
pub struct Nil;

impl<Head, Tail> Cons<Head, Tail> {
    /// Builds a cell from its head and tail values.
    pub fn new(head: Head, tail: Tail) -> (r: Self)
        ensures
            r.0 == head,
            r.1 == tail,
    {
        Cons(head, tail)
    }

    pub fn into_head(self) -> (r: Head)
        ensures
            r == self.0,
    {
        let Cons(head, _) = self;
        head
    }

    pub fn into_tail(self) -> (r: Tail)
        ensures
            r == self.1,
    {
        let Cons(_, tail) = self;
        tail
    }

    pub fn head(&self) -> (r: &Head)
        ensures
            *r == self.0,
    {
        let Cons(head, _) = self;
        head
    }

    pub fn tail(&self) -> (r: &Tail)
        ensures
            *r == self.1,
    {
        let Cons(_, tail) = self;
        tail
    }

    pub fn head_mut(&mut self) -> (r: &mut Head)
        ensures
            *r == old(self).0,
            *final(self) == Cons(*final(r), old(self).1),
    {
        &mut self.0
    }

    pub fn tail_mut(&mut self) -> (r: &mut Tail)
        ensures
            *r == old(self).1,
            *final(self) == Cons(old(self).0, *final(r)),
    {
        &mut self.1
    }
}

impl<Head, Tail> From<(Head, Tail)> for Cons<Head, Tail> {
    fn from(value: (Head, Tail)) -> (r: Self) {
        let (head, tail) = value;
        Cons(head, tail)
    }
}

impl<Head, Tail> vstd::std_specs::convert::FromSpecImpl<(Head, Tail)> for Cons<Head, Tail> {
    open spec fn obeys_from_spec() -> bool {
        true
    }

    open spec fn from_spec(v: (Head, Tail)) -> Self {
        Cons(v.0, v.1)
    }
}

impl<Head, Tail> From<Cons<Head, Tail>> for (Head, Tail) {
    fn from(value: Cons<Head, Tail>) -> (r: Self) {
        let Cons(head, tail) = value;
        (head, tail)
    }
}

impl<Head, Tail> vstd::std_specs::convert::FromSpecImpl<Cons<Head, Tail>> for (Head, Tail) {
    open spec fn obeys_from_spec() -> bool {
        true
    }

    open spec fn from_spec(v: Cons<Head, Tail>) -> Self {
        (v.0, v.1)
    }
}

} // verus!
