use vstd::prelude::*;

verus! {

/// A fixed-dimension tuple of `SIZE` components.
#[derive(Debug, Clone, Copy)]
pub struct Vector<const SIZE: usize, T>(pub [T; SIZE]);

impl<const SIZE: usize, T> View for Vector<SIZE, T> {
    type V = Seq<T>;

    open spec fn view(&self) -> Seq<T> {
        self.0@
    }
}

impl<T: Copy> Vector<2, T> {
    /// First component.
    pub fn x(&self) -> (r: T)
        ensures
            r == self@[0],
    {
        self.0[0]
    }

    /// Second component.
    pub fn y(&self) -> (r: T)
        ensures
            r == self@[1],
    {
        self.0[1]
    }
}

impl<T: Copy> Vector<3, T> {
    /// First component.
    pub fn x(&self) -> (r: T)
        ensures
            r == self@[0],
    {
        self.0[0]
    }

    /// Second component.
    pub fn y(&self) -> (r: T)
        ensures
            r == self@[1],
    {
        self.0[1]
    }

    /// Third component.
    pub fn z(&self) -> (r: T)
        ensures
            r == self@[2],
    {
        self.0[2]
    }
}

} // verus!
