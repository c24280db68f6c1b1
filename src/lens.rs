use vstd::prelude::*;

verus! {

/// A projection from a value of type `S` onto one of its parts.
///
/// A guard carries a lens so that it can be narrowed to a sub-part of the
/// protected value while still holding the borrow of the whole cell.
pub trait Lens<S> {
    type Part;

    /// The part that this lens selects in `s`.
    spec fn part(&self, s: S) -> Self::Part;

    /// `s` with the selected part replaced by `p`.
    spec fn put(&self, s: S, p: Self::Part) -> S;

    fn get<'a>(&self, s: &'a S) -> (r: &'a Self::Part)
        ensures
            *r == self.part(*s),
    ;

    fn get_mut<'a>(&self, s: &'a mut S) -> (r: &'a mut Self::Part)
        ensures
            *r == self.part(*old(s)),
            *final(s) == self.put(*old(s), *final(r)),
    ;
}

/// The lens that selects the whole value.
#[derive(Clone, Copy)]
pub struct Whole;

impl<S> Lens<S> for Whole {
    type Part = S;

    open spec fn part(&self, s: S) -> S {
        s
    }

    open spec fn put(&self, s: S, p: S) -> S {
        p
    }

    fn get<'a>(&self, s: &'a S) -> (r: &'a S) {
        s
    }

    fn get_mut<'a>(&self, s: &'a mut S) -> (r: &'a mut S) {
        s
    }
}

/// The first component of a pair.
#[derive(Clone, Copy)]
pub struct Fst;

impl<A, B> Lens<(A, B)> for Fst {
    type Part = A;

    open spec fn part(&self, s: (A, B)) -> A {
        s.0
    }

    open spec fn put(&self, s: (A, B), p: A) -> (A, B) {
        (p, s.1)
    }

    fn get<'a>(&self, s: &'a (A, B)) -> (r: &'a A) {
        &s.0
    }

    fn get_mut<'a>(&self, s: &'a mut (A, B)) -> (r: &'a mut A) {
        &mut s.0
    }
}

/// The second component of a pair.
#[derive(Clone, Copy)]
pub struct Snd;

impl<A, B> Lens<(A, B)> for Snd {
    type Part = B;

    open spec fn part(&self, s: (A, B)) -> B {
        s.1
    }

    open spec fn put(&self, s: (A, B), p: B) -> (A, B) {
        (s.0, p)
    }

    fn get<'a>(&self, s: &'a (A, B)) -> (r: &'a B) {
        &s.1
    }

    fn get_mut<'a>(&self, s: &'a mut (A, B)) -> (r: &'a mut B) {
        &mut s.1
    }
}

/// `first` followed by `second`: the part that `second` selects inside the
/// part that `first` selects.
#[derive(Clone, Copy)]
pub struct Then<L, M> {
    pub first: L,
    pub second: M,
}

impl<S, L: Lens<S>, M: Lens<L::Part>> Lens<S> for Then<L, M> where L::Part: 'static {
    type Part = M::Part;

    open spec fn part(&self, s: S) -> M::Part {
        self.second.part(self.first.part(s))
    }

    open spec fn put(&self, s: S, p: M::Part) -> S {
        self.first.put(s, self.second.put(self.first.part(s), p))
    }

    fn get<'a>(&self, s: &'a S) -> (r: &'a M::Part) {
        let outer = self.first.get(s);
        self.second.get(outer)
    }

    fn get_mut<'a>(&self, s: &'a mut S) -> (r: &'a mut M::Part) {
        let outer = self.first.get_mut(s);
        self.second.get_mut(outer)
    }
}

} // verus!
