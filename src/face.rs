use vstd::prelude::*;

use crate::colour::{unclassified_colour, Colour};

verus! {

/// A face of an axis-aligned cuboid. Face colours are stored in this order.
#[derive(Clone, Copy, Debug, PartialEq, Eq, Structural)]
pub enum Face {
    PosX,
    NegX,
    PosY,
    NegY,
    PosZ,
    NegZ,
}

/// For each face, whether a point lies on or beyond the plane of that face:
/// `pos_x` is `p.x >= half_size.x`, `neg_x` is `p.x <= -half_size.x`, and so on.
#[derive(Clone, Copy, Debug, PartialEq, Eq, Structural)]
pub struct FaceTests {
    pub pos_x: bool,
    pub neg_x: bool,
    pub pos_y: bool,
    pub neg_y: bool,
    pub pos_z: bool,
    pub neg_z: bool,
}

/// The position of a face's colour in a cuboid's colour array.
pub open spec fn face_slot(f: Face) -> int {
    match f {
        Face::PosX => 0,
        Face::NegX => 1,
        Face::PosY => 2,
        Face::NegY => 3,
        Face::PosZ => 4,
        Face::NegZ => 5,
    }
}

/// Whether the test for face `f` matched.
pub open spec fn face_matches(t: FaceTests, f: Face) -> bool {
    match f {
        Face::PosX => t.pos_x,
        Face::NegX => t.neg_x,
        Face::PosY => t.pos_y,
        Face::NegY => t.neg_y,
        Face::PosZ => t.pos_z,
        Face::NegZ => t.neg_z,
    }
}

/// The first face, in the order `+x, -x, +y, -y, +z, -z`, whose test matched.
pub open spec fn first_face(t: FaceTests) -> Option<Face> {
    if t.pos_x {
        Some(Face::PosX)
    } else if t.neg_x {
        Some(Face::NegX)
    } else if t.pos_y {
        Some(Face::PosY)
    } else if t.neg_y {
        Some(Face::NegY)
    } else if t.pos_z {
        Some(Face::PosZ)
    } else if t.neg_z {
        Some(Face::NegZ)
    } else {
        None
    }
}

impl Face {
    pub fn slot(&self) -> (i: usize)
        ensures
            i == face_slot(*self),
    {
        match self {
            Face::PosX => 0,
            Face::NegX => 1,
            Face::PosY => 2,
            Face::NegY => 3,
            Face::PosZ => 4,
            Face::NegZ => 5,
        }
    }
}

/// The face a boundary point belongs to: the first matching test in the order
/// `+x, -x, +y, -y, +z, -z`, or none when no test matches.
pub fn classify_face(t: FaceTests) -> (r: Option<Face>)
    ensures
        r == first_face(t),
        r is None <==> !t.pos_x && !t.neg_x && !t.pos_y && !t.neg_y && !t.pos_z && !t.neg_z,
        r matches Some(f) ==> face_matches(t, f),
        r matches Some(f) ==> forall|g: Face| #[trigger] face_slot(g) < face_slot(f) ==> !face_matches(t, g),
{
    if t.pos_x {
        Some(Face::PosX)
    } else if t.neg_x {
        Some(Face::NegX)
    } else if t.pos_y {
        Some(Face::PosY)
    } else if t.neg_y {
        Some(Face::NegY)
    } else if t.pos_z {
        Some(Face::PosZ)
    } else if t.neg_z {
        Some(Face::NegZ)
    } else {
        None
    }
}

/// The colour of a cuboid at a boundary point: the colour of the face that
/// `classify_face` picks, or the unclassified marker colour when it picks none.
pub fn face_colour(colours: &[Colour; 6], t: FaceTests) -> (c: Colour)
    ensures
        first_face(t) matches Some(f) ==> c == colours@[face_slot(f)],
        first_face(t) is None ==> c == unclassified_colour(),
{
    match classify_face(t) {
        Some(f) => colours[f.slot()],
        None => Colour::unclassified(),
    }
}

} // verus!
