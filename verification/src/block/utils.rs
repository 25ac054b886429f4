//! The faces of a block: their codes and their geometry on the unit cube.

use vstd::prelude::*;

verus! {

/// The six faces of a block, one per axis direction.
///
/// The order of the variants is the order of their codes, `0` to `5`.
#[derive(Copy, Clone, Debug, PartialEq, Eq, Structural)]
pub enum BlockFaceCodes {
    BlockFacePositiveX,
    BlockFaceNegativeX,
    BlockFacePositiveY,
    BlockFaceNegativeY,
    BlockFacePositiveZ,
    BlockFaceNegativeZ,
}

/// The cross product of two lattice vectors.
pub open spec fn cross(a: (int, int, int), b: (int, int, int)) -> (int, int, int) {
    (a.1 * b.2 - a.2 * b.1, a.2 * b.0 - a.0 * b.2, a.0 * b.1 - a.1 * b.0)
}

/// The difference `a - b` of two lattice points.
pub open spec fn minus(a: (int, int, int), b: (int, int, int)) -> (int, int, int) {
    (a.0 - b.0, a.1 - b.1, a.2 - b.2)
}

/// The normal of the triangle `a`, `b`, `c`, by the right-hand rule: it
/// points towards the side from which the three corners are seen
/// counter-clockwise. Its length is twice the triangle's area.
pub open spec fn triangle_normal(a: (int, int, int), b: (int, int, int), c: (int, int, int)) -> (
    int,
    int,
    int,
) {
    cross(minus(b, a), minus(c, a))
}

/// The array `a` holds the lattice vector `v`.
pub open spec fn is_vec3(a: [i32; 3], v: (int, int, int)) -> bool {
    a[0] == v.0 && a[1] == v.1 && a[2] == v.2
}

/// The array `a` holds the pair `v`.
pub open spec fn is_vec2(a: [i32; 2], v: (int, int)) -> bool {
    a[0] == v.0 && a[1] == v.1
}

impl BlockFaceCodes {
    /// The code of the face, `0` to `5`.
    pub open spec fn code(self) -> int {
        match self {
            Self::BlockFacePositiveX => 0,
            Self::BlockFaceNegativeX => 1,
            Self::BlockFacePositiveY => 2,
            Self::BlockFaceNegativeY => 3,
            Self::BlockFacePositiveZ => 4,
            Self::BlockFaceNegativeZ => 5,
        }
    }

    /// The face with the given code; codes from `6` on name no face.
    pub open spec fn of_code(code: int) -> Self {
        if code == 0 {
            Self::BlockFacePositiveX
        } else if code == 1 {
            Self::BlockFaceNegativeX
        } else if code == 2 {
            Self::BlockFacePositiveY
        } else if code == 3 {
            Self::BlockFaceNegativeY
        } else if code == 4 {
            Self::BlockFacePositiveZ
        } else {
            Self::BlockFaceNegativeZ
        }
    }

    /// The unit vector that points out of the face.
    pub open spec fn normal(self) -> (int, int, int) {
        match self {
            Self::BlockFacePositiveX => (1, 0, 0),
            Self::BlockFaceNegativeX => (-1, 0, 0),
            Self::BlockFacePositiveY => (0, 1, 0),
            Self::BlockFaceNegativeY => (0, -1, 0),
            Self::BlockFacePositiveZ => (0, 0, 1),
            Self::BlockFaceNegativeZ => (0, 0, -1),
        }
    }

    /// Corner `k` (`0` to `3`) of the face on the unit cube that spans
    /// `(0, 0, 0)` to `(1, 1, 1)`.
    ///
    /// The corners are listed row by row: corners `0` and `1` are one edge
    /// of the face, corners `2` and `3` the edge across, and the face is
    /// covered by the two triangles with the corners `0, 1, 2` and
    /// `2, 1, 3`. On the four upright faces the first edge is the upper
    /// one.
    pub open spec fn corner(self, k: int) -> (int, int, int) {
        match self {
            Self::BlockFacePositiveX => if k == 0 {
                (1, 1, 0)
            } else if k == 1 {
                (1, 1, 1)
            } else if k == 2 {
                (1, 0, 0)
            } else {
                (1, 0, 1)
            },
            Self::BlockFaceNegativeX => if k == 0 {
                (0, 1, 1)
            } else if k == 1 {
                (0, 1, 0)
            } else if k == 2 {
                (0, 0, 1)
            } else {
                (0, 0, 0)
            },
            Self::BlockFacePositiveY => if k == 0 {
                (0, 1, 1)
            } else if k == 1 {
                (1, 1, 1)
            } else if k == 2 {
                (0, 1, 0)
            } else {
                (1, 1, 0)
            },
            Self::BlockFaceNegativeY => if k == 0 {
                (0, 0, 0)
            } else if k == 1 {
                (1, 0, 0)
            } else if k == 2 {
                (0, 0, 1)
            } else {
                (1, 0, 1)
            },
            Self::BlockFacePositiveZ => if k == 0 {
                (1, 1, 1)
            } else if k == 1 {
                (0, 1, 1)
            } else if k == 2 {
                (1, 0, 1)
            } else {
                (0, 0, 1)
            },
            Self::BlockFaceNegativeZ => if k == 0 {
                (0, 1, 0)
            } else if k == 1 {
                (1, 1, 0)
            } else if k == 2 {
                (0, 0, 0)
            } else {
                (1, 0, 0)
            },
        }
    }

    /// Texture corner `k` (`0` to `3`) of a face, in the unit square: the
    /// same for every face.
    pub open spec fn texture_corner(k: int) -> (int, int) {
        if k == 0 {
            (0, 0)
        } else if k == 1 {
            (1, 0)
        } else if k == 2 {
            (0, 1)
        } else {
            (1, 1)
        }
    }

    /// Returns the code of the face.
    pub fn as_u8(&self) -> (r: u8)
        ensures
            r == self.code(),
    {
        match self {
            Self::BlockFacePositiveX => 0,
            Self::BlockFaceNegativeX => 1,
            Self::BlockFacePositiveY => 2,
            Self::BlockFaceNegativeY => 3,
            Self::BlockFacePositiveZ => 4,
            Self::BlockFaceNegativeZ => 5,
        }
    }

    /// Returns the face with the given code. A code that names no face is a
    /// programming error.
    pub fn from_u8(code: u8) -> (r: Self)
        requires
            code < 6,
        ensures
            r.code() == code,
            r == Self::of_code(code as int),
    {
        if code == 0 {
            Self::BlockFacePositiveX
        } else if code == 1 {
            Self::BlockFaceNegativeX
        } else if code == 2 {
            Self::BlockFacePositiveY
        } else if code == 3 {
            Self::BlockFaceNegativeY
        } else if code == 4 {
            Self::BlockFacePositiveZ
        } else {
            Self::BlockFaceNegativeZ
        }
    }

    /// Returns the byte in which only the bit of this face is set.
    pub fn mask_u8(&self) -> (r: u8)
        ensures
            r == 1u8 << (self.code() as u8),
            forall|other: Self|
                (#[trigger] ((r >> (other.code() as u8)) & 1) == 1) <==> other == *self,
    {
        let code: u8 = self.as_u8();
        let r: u8 = 1u8 << code;
        proof {
            assert forall|other: Self| (#[trigger] ((r >> (other.code() as u8)) & 1) == 1)
                <==> other == *self by {
                let o: u8 = other.code() as u8;
                assert(code < 6 && o < 6 ==> ((((1u8 << code) >> o) & 1) == 1 <==> o == code))
                    by (bit_vector);
            }
        }
        r
    }

    /// Returns all six faces, in the order of their codes.
    pub fn variants() -> (r: [Self; 6])
        ensures
            forall|i: int| 0 <= i < 6 ==> (#[trigger] r[i]).code() == i,
    {
        [
            Self::BlockFacePositiveX,
            Self::BlockFaceNegativeX,
            Self::BlockFacePositiveY,
            Self::BlockFaceNegativeY,
            Self::BlockFacePositiveZ,
            Self::BlockFaceNegativeZ,
        ]
    }

    /// Returns the four corners of the face on the unit cube.
    pub fn vertex_data(&self) -> (r: [[i32; 3]; 4])
        ensures
            forall|k: int| 0 <= k < 4 ==> is_vec3(#[trigger] r[k], self.corner(k)),
    {
        match self {
            Self::BlockFacePositiveX => [[1, 1, 0], [1, 1, 1], [1, 0, 0], [1, 0, 1]],
            Self::BlockFaceNegativeX => [[0, 1, 1], [0, 1, 0], [0, 0, 1], [0, 0, 0]],
            Self::BlockFacePositiveY => [[0, 1, 1], [1, 1, 1], [0, 1, 0], [1, 1, 0]],
            Self::BlockFaceNegativeY => [[0, 0, 0], [1, 0, 0], [0, 0, 1], [1, 0, 1]],
            Self::BlockFacePositiveZ => [[1, 1, 1], [0, 1, 1], [1, 0, 1], [0, 0, 1]],
            Self::BlockFaceNegativeZ => [[0, 1, 0], [1, 1, 0], [0, 0, 0], [1, 0, 0]],
        }
    }

    /// Returns the four texture corners of the face, in the unit square.
    pub fn texture_data(&self) -> (r: [[i32; 2]; 4])
        ensures
            forall|k: int| 0 <= k < 4 ==> is_vec2(#[trigger] r[k], Self::texture_corner(k)),
    {
        [[0, 0], [1, 0], [0, 1], [1, 1]]
    }

    /// Returns the outward normal of the face.
    pub fn normal_data(&self) -> (r: [i32; 3])
        ensures
            is_vec3(r, self.normal()),
    {
        match self {
            Self::BlockFacePositiveX => [1, 0, 0],
            Self::BlockFaceNegativeX => [-1, 0, 0],
            Self::BlockFacePositiveY => [0, 1, 0],
            Self::BlockFaceNegativeY => [0, -1, 0],
            Self::BlockFacePositiveZ => [0, 0, 1],
            Self::BlockFaceNegativeZ => [0, 0, -1],
        }
    }

    /// Returns the step from a cell to its neighbour across the face.
    pub fn direction(&self) -> (r: (i32, i32, i32))
        ensures
            r.0 == self.normal().0,
            r.1 == self.normal().1,
            r.2 == self.normal().2,
    {
        match self {
            Self::BlockFacePositiveX => (1, 0, 0),
            Self::BlockFaceNegativeX => (-1, 0, 0),
            Self::BlockFacePositiveY => (0, 1, 0),
            Self::BlockFaceNegativeY => (0, -1, 0),
            Self::BlockFacePositiveZ => (0, 0, 1),
            Self::BlockFaceNegativeZ => (0, 0, -1),
        }
    }

    /// A face and its code determine each other.
    pub proof fn lemma_code_round_trip(self)
        ensures
            0 <= self.code() < 6,
            Self::of_code(self.code()) == self,
    {
    }

    /// Every corner of a face lies in the plane of that face: the plane
    /// through the side of the unit cube to which the normal points.
    pub proof fn lemma_corners_on_face(self, k: int)
        requires
            0 <= k < 4,
        ensures
            ({
                let c = self.corner(k);
                let n = self.normal();
                &&& 0 <= c.0 <= 1 && 0 <= c.1 <= 1 && 0 <= c.2 <= 1
                &&& n.0 == 1 ==> c.0 == 1
                &&& n.0 == -1 ==> c.0 == 0
                &&& n.1 == 1 ==> c.1 == 1
                &&& n.1 == -1 ==> c.1 == 0
                &&& n.2 == 1 ==> c.2 == 1
                &&& n.2 == -1 ==> c.2 == 0
            }),
    {
    }

    /// The four corners of a face are four different points.
    pub proof fn lemma_corners_distinct(self, j: int, k: int)
        requires
            0 <= j < k < 4,
        ensures
            self.corner(j) != self.corner(k),
    {
    }

    /// Both triangles of a face, corners `0, 1, 2` and corners `2, 1, 3`,
    /// wind counter-clockwise when seen from outside the block: the normal
    /// of each, by the right-hand rule, is the outward normal of the face.
    pub proof fn lemma_winding_outward(self)
        ensures
            triangle_normal(self.corner(0), self.corner(1), self.corner(2)) == self.normal(),
            triangle_normal(self.corner(2), self.corner(1), self.corner(3)) == self.normal(),
    {
        match self {
            Self::BlockFacePositiveX => {
                assert(triangle_normal((1int, 1int, 0int), (1int, 1int, 1int), (1int, 0int, 0int))
                    == (1int, 0int, 0int)) by (nonlinear_arith);
                assert(triangle_normal((1int, 0int, 0int), (1int, 1int, 1int), (1int, 0int, 1int))
                    == (1int, 0int, 0int)) by (nonlinear_arith);
            },
            Self::BlockFaceNegativeX => {
                assert(triangle_normal((0int, 1int, 1int), (0int, 1int, 0int), (0int, 0int, 1int))
                    == (-1int, 0int, 0int)) by (nonlinear_arith);
                assert(triangle_normal((0int, 0int, 1int), (0int, 1int, 0int), (0int, 0int, 0int))
                    == (-1int, 0int, 0int)) by (nonlinear_arith);
            },
            Self::BlockFacePositiveY => {
                assert(triangle_normal((0int, 1int, 1int), (1int, 1int, 1int), (0int, 1int, 0int))
                    == (0int, 1int, 0int)) by (nonlinear_arith);
                assert(triangle_normal((0int, 1int, 0int), (1int, 1int, 1int), (1int, 1int, 0int))
                    == (0int, 1int, 0int)) by (nonlinear_arith);
            },
            Self::BlockFaceNegativeY => {
                assert(triangle_normal((0int, 0int, 0int), (1int, 0int, 0int), (0int, 0int, 1int))
                    == (0int, -1int, 0int)) by (nonlinear_arith);
                assert(triangle_normal((0int, 0int, 1int), (1int, 0int, 0int), (1int, 0int, 1int))
                    == (0int, -1int, 0int)) by (nonlinear_arith);
            },
            Self::BlockFacePositiveZ => {
                assert(triangle_normal((1int, 1int, 1int), (0int, 1int, 1int), (1int, 0int, 1int))
                    == (0int, 0int, 1int)) by (nonlinear_arith);
                assert(triangle_normal((1int, 0int, 1int), (0int, 1int, 1int), (0int, 0int, 1int))
                    == (0int, 0int, 1int)) by (nonlinear_arith);
            },
            Self::BlockFaceNegativeZ => {
                assert(triangle_normal((0int, 1int, 0int), (1int, 1int, 0int), (0int, 0int, 0int))
                    == (0int, 0int, -1int)) by (nonlinear_arith);
                assert(triangle_normal((0int, 0int, 0int), (1int, 1int, 0int), (1int, 0int, 0int))
                    == (0int, 0int, -1int)) by (nonlinear_arith);
            },
        }
    }
}

} // verus!
