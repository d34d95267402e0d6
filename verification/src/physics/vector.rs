//! Fixed-size tuples of scalars.
//!
//! The component type is left open: the containers only store and hand back
//! components, so everything stated here holds for every copyable scalar.

use vstd::prelude::*;

verus! {

/// A colour as four channels, conventionally each in the unit interval.
pub struct Color<T> {
    pub red: T,
    pub green: T,
    pub blue: T,
    pub alpha: T,
}

impl<T: Copy> Color<T> {
    pub fn new(red: T, green: T, blue: T, alpha: T) -> (color: Self)
        ensures
            color == (Color { red, green, blue, alpha }),
    {
        Color { red, green, blue, alpha }
    }
}

/// A pair of components `(x, y)`.
pub struct Vector2<T> {
    data: [T; 2],
}

impl<T> View for Vector2<T> {
    type V = (T, T);

    closed spec fn view(&self) -> (T, T) {
        (self.data[0], self.data[1])
    }
}

impl<T: Copy> Vector2<T> {
    pub fn new(x: T, y: T) -> (vector: Self)
        ensures
            vector@ == (x, y),
    {
        Vector2 { data: [x, y] }
    }

    pub fn get_x(&self) -> (x: T)
        ensures
            x == self@.0,
    {
        self.data[0]
    }

    pub fn get_y(&self) -> (y: T)
        ensures
            y == self@.1,
    {
        self.data[1]
    }

    pub fn set_x(&mut self, value: T)
        ensures
            final(self)@ == (value, old(self)@.1),
    {
        self.data[0] = value;
    }

    pub fn set_y(&mut self, value: T)
        ensures
            final(self)@ == (old(self)@.0, value),
    {
        self.data[1] = value;
    }

    pub fn set(&mut self, x: T, y: T)
        ensures
            final(self)@ == (x, y),
    {
        self.data[0] = x;
        self.data[1] = y;
    }

    /// Two vectors with the same components are the same vector.
    pub proof fn lemma_view_determines(a: Self, b: Self)
        requires
            a@ == b@,
        ensures
            a == b,
    {
        assert(a.data =~= b.data);
    }
}

/// A triple of components `(x, y, z)`.
pub struct Vector3<T> {
    data: [T; 3],
}

impl<T> View for Vector3<T> {
    type V = (T, T, T);

    closed spec fn view(&self) -> (T, T, T) {
        (self.data[0], self.data[1], self.data[2])
    }
}

impl<T: Copy> Vector3<T> {
    pub fn new(x: T, y: T, z: T) -> (vector: Self)
        ensures
            vector@ == (x, y, z),
    {
        Vector3 { data: [x, y, z] }
    }

    pub fn get_x(&self) -> (x: T)
        ensures
            x == self@.0,
    {
        self.data[0]
    }

    pub fn get_y(&self) -> (y: T)
        ensures
            y == self@.1,
    {
        self.data[1]
    }

    pub fn get_z(&self) -> (z: T)
        ensures
            z == self@.2,
    {
        self.data[2]
    }

    pub fn set_x(&mut self, value: T)
        ensures
            final(self)@ == (value, old(self)@.1, old(self)@.2),
    {
        self.data[0] = value;
    }

    pub fn set_y(&mut self, value: T)
        ensures
            final(self)@ == (old(self)@.0, value, old(self)@.2),
    {
        self.data[1] = value;
    }

    pub fn set_z(&mut self, value: T)
        ensures
            final(self)@ == (old(self)@.0, old(self)@.1, value),
    {
        self.data[2] = value;
    }

    pub fn set(&mut self, x: T, y: T, z: T)
        ensures
            final(self)@ == (x, y, z),
    {
        self.data[0] = x;
        self.data[1] = y;
        self.data[2] = z;
    }

    /// Two vectors with the same components are the same vector.
    pub proof fn lemma_view_determines(a: Self, b: Self)
        requires
            a@ == b@,
        ensures
            a == b,
    {
        assert(a.data =~= b.data);
    }
}

} // verus!
