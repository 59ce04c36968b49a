//! Small vector and matrix types shared by the renderer and its callers.
use vstd::prelude::*;

verus! {

/// A two-component vector.
#[derive(Debug, PartialEq, Eq)]
pub struct Vector2<T: Copy> {
    pub x: T,
    pub y: T,
}

impl<T: Copy> Clone for Vector2<T> {
    fn clone(&self) -> (r: Self)
        ensures
            r == *self,
    {
        Vector2 { x: self.x, y: self.y }
    }
}

/// A four-component vector (also used for RGBA colors).
#[derive(Debug, PartialEq, Eq)]
pub struct Vector4<T: Copy> {
    pub x: T,
    pub y: T,
    pub z: T,
    pub w: T,
}

impl<T: Copy> Vector4<T> {
    /// A vector whose four components all equal `s`.
    pub fn from_scalar(s: T) -> (r: Vector4<T>)
        ensures
            r.x == s,
            r.y == s,
            r.z == s,
            r.w == s,
    {
        Vector4 { x: s, y: s, z: s, w: s }
    }
}

impl<T: Copy> Clone for Vector4<T> {
    fn clone(&self) -> (r: Self)
        ensures
            r == *self,
    {
        Vector4 { x: self.x, y: self.y, z: self.z, w: self.w }
    }
}

/// A 4x4 matrix stored row-major: element (row, column) sits at `row * 4 + column`.
pub struct Matrix4<T: Copy> {
    matrix: [T; 16],
}

/// Whether flat index `i` of a row-major 4x4 matrix lies on the main diagonal.
pub open spec fn on_diagonal(i: int) -> bool {
    i / 4 == i % 4
}

impl<T: Copy> Matrix4<T> {
    /// The sixteen elements, row-major.
    pub closed spec fn elements(&self) -> Seq<T> {
        self.matrix@
    }

    /// A matrix with `b` on the main diagonal and `a` everywhere else
    /// (`Matrix4::new(0, 1)` is the identity).
    pub fn new(a: T, b: T) -> (r: Matrix4<T>)
        ensures
            r.elements().len() == 16,
            forall|i: int|
                0 <= i < 16 ==> #[trigger] r.elements()[i] == if on_diagonal(i) {
                    b
                } else {
                    a
                },
    {
        let matrix = [b, a, a, a, a, b, a, a, a, a, b, a, a, a, a, b];
        Matrix4 { matrix }
    }

    /// The sixteen elements, row-major, in one contiguous block as the GPU
    /// reads them.
    pub fn as_ptr(&self) -> (r: &[T])
        ensures
            r@ == self.elements(),
    {
        self.matrix.as_slice()
    }
}

} // verus!
