//! Angles as fractions of a turn, and the unit directions that the host
//! supplies for them.
//!
//! The crate works in integers and evaluates no cosine or sine. It says
//! which angles it needs, as fractions of a full turn, and takes the unit
//! direction of each of them from the host.

use vstd::prelude::*;
use crate::geometry::Direction;

verus! {

/// The number of vertices that an ellipse has unless the host chooses
/// another.
pub const SEGMENTS: usize = 200;

/// The number of places on the ring of bullets.
pub const MAXIMUM_BULLET: usize = 6;

/// An angle: `step` parts of a full turn that is divided into `steps` equal
/// parts.
#[derive(Clone, Copy, Debug, PartialEq, Eq, Structural)]
pub struct Turn {
    pub step: usize,
    pub steps: usize,
}

/// The angles at which the `steps` equal parts of a full turn begin, from
/// zero upwards.
pub fn turns(steps: usize) -> (angles: Vec<Turn>)
    ensures
        angles@.len() == steps,
        forall|i: int|
            0 <= i < steps ==> #[trigger] angles@[i] == (Turn { step: i as usize, steps }),
{
    let mut angles: Vec<Turn> = Vec::new();
    let mut i: usize = 0;
    while i < steps
        invariant
            i <= steps,
            angles@.len() == i,
            forall|j: int|
                0 <= j < i ==> #[trigger] angles@[j] == (Turn { step: j as usize, steps }),
        decreases steps - i,
    {
        angles.push(Turn { step: i, steps });
        i += 1;
    }
    angles
}

/// The place on the ring where bullet `i` goes. Bullets beyond the ring's
/// capacity go round again.
pub open spec fn bullet_slot(i: int) -> int {
    i % (MAXIMUM_BULLET as int)
}

/// The angle at which bullet `i` sits on the ring.
pub open spec fn bullet_turn(i: int) -> Turn {
    Turn { step: bullet_slot(i) as usize, steps: MAXIMUM_BULLET }
}

/// The arc from the last of `count` bullets onwards to the first, in parts
/// of the ring.
pub open spec fn closing_gap(count: int) -> int {
    MAXIMUM_BULLET - bullet_turn(count - 1).step + bullet_turn(0).step
}

/// The arc from bullet `i` to the next, in parts of the ring.
pub open spec fn gap_after(i: int) -> int {
    bullet_turn(i + 1).step - bullet_turn(i).step
}

/// Bullets that fit on the ring sit one part of the ring apart. Where they
/// fill the ring, the arc that closes it is one part as well, so the spacing
/// is uniform; where they do not, that arc is longer than the arc between
/// two neighbours.
pub proof fn lemma_ring_spacing(count: int)
    requires
        1 <= count <= MAXIMUM_BULLET,
    ensures
        forall|i: int| 0 <= i && i + 1 < count ==> #[trigger] gap_after(i) == 1,
        count == MAXIMUM_BULLET ==> closing_gap(count) == 1,
        count < MAXIMUM_BULLET ==> closing_gap(count) > 1,
        closing_gap(count) == MAXIMUM_BULLET - count + 1,
{
}

/// The unit directions that the host supplies: `rim` for the outline of an
/// ellipse and `ring` for the places of the bullets.
#[derive(Debug)]
pub struct Compass {
    rim: Vec<Direction>,
    ring: Vec<Direction>,
}

impl Compass {
    /// The directions of an ellipse's vertices, in the order of the vertices.
    pub closed spec fn rim(&self) -> Seq<Direction> {
        self.rim@
    }

    /// The directions of the places on the ring of bullets.
    pub closed spec fn ring(&self) -> Seq<Direction> {
        self.ring@
    }

    /// The ring has one direction for each of its places.
    pub open spec fn wf(&self) -> bool {
        self.ring().len() == MAXIMUM_BULLET
    }

    /// Takes the directions from the host: `rim[i]` for turn `i` of
    /// `rim.len()`, and `ring[i]` for turn `i` of [`MAXIMUM_BULLET`]. A ring
    /// of another length is refused.
    pub fn new(rim: Vec<Direction>, ring: Vec<Direction>) -> (compass: Option<Compass>)
        ensures
            compass is Some <==> ring@.len() == MAXIMUM_BULLET,
            compass matches Some(c) ==> c.wf() && c.rim() == rim@ && c.ring() == ring@,
    {
        if ring.len() == MAXIMUM_BULLET {
            Some(Compass { rim, ring })
        } else {
            None
        }
    }

    /// The directions of an ellipse's vertices.
    pub fn rim_directions(&self) -> (rim: &Vec<Direction>)
        ensures
            rim@ == self.rim(),
    {
        &self.rim
    }

    /// The direction of place `slot` on the ring of bullets.
    pub fn ring_direction(&self, slot: usize) -> (toward: Direction)
        requires
            self.wf(),
            slot < MAXIMUM_BULLET,
        ensures
            toward == self.ring()[slot as int],
    {
        self.ring[slot]
    }
}

} // verus!
