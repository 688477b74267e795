//! Math-layer data types. The scalar type is a parameter: the pipeline core
//! never computes on scalars, it only places them, so positions, colors and
//! matrix entries flow through untouched and the backend supplies the
//! floating-point arithmetic. What is verified here is the single most
//! convention-sensitive part of the matrix layer: the storage layout, that is
//! which (column, row) cell each constructor fills.

use vstd::prelude::*;

verus! {

/// A pair of scalars: a screen coordinate or texture coordinate.
#[derive(Debug, Clone, Copy)]
pub struct Vector2<S> {
    pub x: S,
    pub y: S,
}

impl<S> Vector2<S> {
    pub fn new(x: S, y: S) -> (r: Self)
        ensures
            r == (Vector2 { x, y }),
    {
        Vector2 { x, y }
    }
}

/// A triple of scalars: a position, direction, color or scale.
#[derive(Debug, Clone, Copy)]
pub struct Vector3<S> {
    pub x: S,
    pub y: S,
    pub z: S,
}

impl<S> Vector3<S> {
    pub fn new(x: S, y: S, z: S) -> (r: Self)
        ensures
            r == (Vector3 { x, y, z }),
    {
        Vector3 { x, y, z }
    }
}

/// A 4x4 matrix, stored as 16 scalars with the cell at (`column`, `row`)
/// kept at index `row * 4 + column`. Every accessor and constructor goes
/// through this one addressing rule.
#[derive(Debug)]
pub struct Mat4<S> {
    entries: Vec<S>,
}

impl<S: Copy> Mat4<S> {
    /// The 16 entries in storage order.
    pub closed spec fn entries_view(&self) -> Seq<S> {
        self.entries@
    }

    pub open spec fn wf(&self) -> bool {
        self.entries_view().len() == 16
    }

    /// The cell at (`column`, `row`).
    pub open spec fn entry(&self, column: int, row: int) -> S {
        self.entries_view()[row * 4 + column]
    }

    pub fn from_entries(entries: Vec<S>) -> (r: Self)
        requires
            entries@.len() == 16,
        ensures
            r.wf(),
            r.entries_view() == entries@,
    {
        Mat4 { entries }
    }

    pub fn get(&self, column: usize, row: usize) -> (v: S)
        requires
            self.wf(),
            column < 4,
            row < 4,
        ensures
            v == self.entry(column as int, row as int),
    {
        self.entries[row * 4 + column]
    }

    pub fn set(&mut self, column: usize, row: usize, val: S)
        requires
            old(self).wf(),
            column < 4,
            row < 4,
        ensures
            final(self).wf(),
            final(self).entries_view() == old(self).entries_view().update(
                row * 4 + column,
                val,
            ),
            final(self).entry(column as int, row as int) == val,
            forall|c: int, r: int|
                0 <= c < 4 && 0 <= r < 4 && !(c == column && r == row) ==> final(self).entry(c, r)
                    == old(self).entry(c, r),
    {
        self.entries[row * 4 + column] = val;
        proof {
            assert forall|c: int, r: int|
                0 <= c < 4 && 0 <= r < 4 && !(c == column && r == row) implies self.entry(c, r)
                == old(self).entry(c, r) by {
                assert(r * 4 + c != row * 4 + column) by (nonlinear_arith)
                    requires
                        0 <= c < 4,
                        0 <= r < 4,
                        0 <= column < 4,
                        0 <= row < 4,
                        !(c == column && r == row),
                ;
            }
        }
    }

    /// The identity pattern: `one` on the diagonal, `zero` elsewhere.
    pub fn identity(zero: S, one: S) -> (r: Self)
        ensures
            r.wf(),
            forall|c: int, r2: int|
                0 <= c < 4 && 0 <= r2 < 4 ==> r.entry(c, r2) == (if c == r2 {
                    one
                } else {
                    zero
                }),
    {
        let entries: Vec<S> = vec![
            one, zero, zero, zero,
            zero, one, zero, zero,
            zero, zero, one, zero,
            zero, zero, zero, one,
        ];
        let m = Mat4 { entries };
        proof {
            assert forall|c: int, r2: int|
                0 <= c < 4 && 0 <= r2 < 4 implies m.entry(c, r2) == (if c == r2 {
                one
            } else {
                zero
            }) by {
                assert(0 <= r2 * 4 + c < 16);
            }
        }
        m
    }

    pub fn copy(&self) -> (r: Self)
        requires
            self.wf(),
        ensures
            r.wf(),
            r.entries_view() == self.entries_view(),
    {
        let mut entries: Vec<S> = Vec::new();
        let mut i: usize = 0;
        while i < 16
            invariant
                self.wf(),
                i <= 16,
                entries@ == self.entries@.take(i as int),
            decreases 16 - i,
        {
            entries.push(self.entries[i]);
            proof {
                assert(entries@ =~= self.entries@.take(i + 1));
            }
            i = i + 1;
        }
        proof {
            assert(entries@ =~= self.entries@);
        }
        Mat4 { entries }
    }

    /// Identity with the translation column: `t` fills the cells at
    /// (0, 3), (1, 3), (2, 3).
    pub fn translation(zero: S, one: S, t: Vector3<S>) -> (r: Self)
        ensures
            r.wf(),
            r.entry(0, 3) == t.x,
            r.entry(1, 3) == t.y,
            r.entry(2, 3) == t.z,
            r.entry(3, 3) == one,
            forall|c: int, r2: int|
                0 <= c < 4 && 0 <= r2 < 3 ==> r.entry(c, r2) == (if c == r2 {
                    one
                } else {
                    zero
                }),
    {
        let mut m = Mat4::identity(zero, one);
        m.set(0, 3, t.x);
        m.set(1, 3, t.y);
        m.set(2, 3, t.z);
        m
    }

    /// The diagonal scale pattern: `s` on the first three diagonal cells.
    pub fn scale(zero: S, one: S, s: Vector3<S>) -> (r: Self)
        ensures
            r.wf(),
            r.entry(0, 0) == s.x,
            r.entry(1, 1) == s.y,
            r.entry(2, 2) == s.z,
            r.entry(3, 3) == one,
            forall|c: int, r2: int|
                0 <= c < 4 && 0 <= r2 < 4 && c != r2 ==> r.entry(c, r2) == zero,
    {
        let mut m = Mat4::identity(zero, one);
        m.set(0, 0, s.x);
        m.set(1, 1, s.y);
        m.set(2, 2, s.z);
        m
    }

    /// Rotation about the x axis, given the angle's sine, cosine and negated
    /// sine: the cosine fills (1, 1) and (2, 2), the sine (2, 1), the negated
    /// sine (1, 2); the rest is the identity pattern.
    pub fn rotation_x(zero: S, one: S, sin: S, cos: S, neg_sin: S) -> (r: Self)
        ensures
            r.wf(),
            r.entry(1, 1) == cos,
            r.entry(2, 1) == sin,
            r.entry(1, 2) == neg_sin,
            r.entry(2, 2) == cos,
            r.entry(0, 0) == one,
            r.entry(3, 3) == one,
            forall|c: int, r2: int|
                0 <= c < 4 && 0 <= r2 < 4 && !(1 <= c < 3 && 1 <= r2 < 3) ==> r.entry(c, r2) == (
                if c == r2 {
                    one
                } else {
                    zero
                }),
    {
        let mut m = Mat4::identity(zero, one);
        m.set(1, 1, cos);
        m.set(2, 1, sin);
        m.set(1, 2, neg_sin);
        m.set(2, 2, cos);
        m
    }

    /// Rotation about the y axis: the cosine fills (0, 0) and (2, 2), the
    /// negated sine (2, 0), the sine (0, 2).
    pub fn rotation_y(zero: S, one: S, sin: S, cos: S, neg_sin: S) -> (r: Self)
        ensures
            r.wf(),
            r.entry(0, 0) == cos,
            r.entry(2, 0) == neg_sin,
            r.entry(0, 2) == sin,
            r.entry(2, 2) == cos,
            r.entry(1, 1) == one,
            r.entry(3, 3) == one,
            forall|c: int, r2: int|
                0 <= c < 4 && 0 <= r2 < 4 && !((c == 0 || c == 2) && (r2 == 0 || r2 == 2))
                    ==> r.entry(c, r2) == (if c == r2 {
                    one
                } else {
                    zero
                }),
    {
        let mut m = Mat4::identity(zero, one);
        m.set(0, 0, cos);
        m.set(2, 0, neg_sin);
        m.set(0, 2, sin);
        m.set(2, 2, cos);
        m
    }

    /// Rotation about the z axis: the cosine fills (0, 0) and (1, 1), the
    /// sine (1, 0), the negated sine (0, 1).
    pub fn rotation_z(zero: S, one: S, sin: S, cos: S, neg_sin: S) -> (r: Self)
        ensures
            r.wf(),
            r.entry(0, 0) == cos,
            r.entry(1, 0) == sin,
            r.entry(0, 1) == neg_sin,
            r.entry(1, 1) == cos,
            r.entry(2, 2) == one,
            r.entry(3, 3) == one,
            forall|c: int, r2: int|
                0 <= c < 4 && 0 <= r2 < 4 && !(0 <= c < 2 && 0 <= r2 < 2) ==> r.entry(c, r2) == (
                if c == r2 {
                    one
                } else {
                    zero
                }),
    {
        let mut m = Mat4::identity(zero, one);
        m.set(0, 0, cos);
        m.set(1, 0, sin);
        m.set(0, 1, neg_sin);
        m.set(1, 1, cos);
        m
    }
}

} // verus!
