//! Face identities and the fixed adjacency table that determines the cube's
//! topology.
//!
//! Each of the six faces is named by the color of its center sticker. The
//! `neighbor_order` table lists, for every face, the four adjacent faces in a
//! fixed clockwise order (as seen from outside the cube looking at that
//! face); everything else in the crate is phrased relative to this table.

use vstd::prelude::*;
use crate::util::RotationAxis;

verus! {

/// One of the six faces of the cube, named by its center color.
///
/// Top: White, bottom: Yellow, front: Red, back: Orange,
/// right: Blue, left: Green.
#[derive(Copy, Clone, Debug, PartialEq, Eq, Structural)]
pub enum Color {
    White,
    Yellow,
    Red,
    Orange,
    Blue,
    Green,
}

/// The four neighbors of a face, clockwise as seen from outside the cube.
///
/// Kept opaque, with `lemma_neighbor_table` summarizing what the rest of
/// the crate needs of the table, so that proofs do not case-split on the
/// six faces at every use.
#[verifier::opaque]
pub open spec fn spec_neighbor_order(c: Color) -> Seq<Color> {
    match c {
        Color::White => seq![Color::Orange, Color::Blue, Color::Red, Color::Green],
        Color::Yellow => seq![Color::Red, Color::Blue, Color::Orange, Color::Green],
        Color::Red => seq![Color::White, Color::Blue, Color::Yellow, Color::Green],
        Color::Orange => seq![Color::White, Color::Green, Color::Yellow, Color::Blue],
        Color::Blue => seq![Color::White, Color::Orange, Color::Yellow, Color::Red],
        Color::Green => seq![Color::White, Color::Red, Color::Yellow, Color::Orange],
    }
}

/// Whether `b` is one of the four faces adjacent to `a`.
#[verifier::opaque]
pub open spec fn is_adjacent(a: Color, b: Color) -> bool {
    let o = spec_neighbor_order(a);
    o[0] == b || o[1] == b || o[2] == b || o[3] == b
}

/// The position of `n` in `c`'s neighbor order; meaningful only when
/// `is_adjacent(c, n)`.
#[verifier::opaque]
pub open spec fn spec_neighbor_pos(c: Color, n: Color) -> int {
    let o = spec_neighbor_order(c);
    if o[0] == n {
        0
    } else if o[1] == n {
        1
    } else if o[2] == n {
        2
    } else {
        3
    }
}

/// The face on the far side of the cube from `c`: the one face that is
/// neither `c` itself nor adjacent to `c`.
pub open spec fn spec_opposite(c: Color) -> Color {
    match c {
        Color::White => Color::Yellow,
        Color::Yellow => Color::White,
        Color::Red => Color::Orange,
        Color::Orange => Color::Red,
        Color::Blue => Color::Green,
        Color::Green => Color::Blue,
    }
}

/// The storage index of each face within the cube's vector of sides.
pub open spec fn color_index(c: Color) -> int {
    match c {
        Color::White => 0,
        Color::Yellow => 1,
        Color::Red => 2,
        Color::Orange => 3,
        Color::Blue => 4,
        Color::Green => 5,
    }
}

/// The face stored at index `i`; inverse of `color_index` on 0..6.
pub open spec fn index_color(i: int) -> Color {
    if i == 0 {
        Color::White
    } else if i == 1 {
        Color::Yellow
    } else if i == 2 {
        Color::Red
    } else if i == 3 {
        Color::Orange
    } else if i == 4 {
        Color::Blue
    } else {
        Color::Green
    }
}

/// The single-letter code each face renders as.
pub open spec fn spec_letter(c: Color) -> char {
    match c {
        Color::White => 'W',
        Color::Yellow => 'Y',
        Color::Red => 'R',
        Color::Orange => 'O',
        Color::Blue => 'B',
        Color::Green => 'G',
    }
}

/// The axis a face rotates about (White/Yellow share one axis, and so on
/// for the other two opposite pairs).
pub open spec fn spec_rotation_axis(c: Color) -> RotationAxis {
    match c {
        Color::White | Color::Yellow => RotationAxis::YAxis,
        Color::Red | Color::Orange => RotationAxis::XAxis,
        Color::Blue | Color::Green => RotationAxis::ZAxis,
    }
}

impl Color {
    /// The four faces adjacent to this one, in the fixed clockwise order.
    pub fn neighbor_order(self) -> (r: [Color; 4])
        ensures
            r@ == spec_neighbor_order(self),
    {
        let r: [Color; 4] = match self {
            Color::White => [Color::Orange, Color::Blue, Color::Red, Color::Green],
            Color::Yellow => [Color::Red, Color::Blue, Color::Orange, Color::Green],
            Color::Red => [Color::White, Color::Blue, Color::Yellow, Color::Green],
            Color::Orange => [Color::White, Color::Green, Color::Yellow, Color::Blue],
            Color::Blue => [Color::White, Color::Orange, Color::Yellow, Color::Red],
            Color::Green => [Color::White, Color::Red, Color::Yellow, Color::Orange],
        };
        proof {
            reveal(spec_neighbor_order);
            assert(r@ =~= spec_neighbor_order(self));
        }
        r
    }

    /// The index (0..4) of `side` within this face's neighbor order.
    pub fn neighbor_pos(self, side: Color) -> (r: usize)
        requires
            is_adjacent(self, side),
        ensures
            r < 4,
            r == spec_neighbor_pos(self, side),
            spec_neighbor_order(self)[r as int] == side,
    {
        proof {
            reveal(is_adjacent);
            reveal(spec_neighbor_pos);
        }
        let order = self.neighbor_order();
        if order[0] == side {
            0
        } else if order[1] == side {
            1
        } else if order[2] == side {
            2
        } else {
            3
        }
    }

    /// The storage index of this face within the cube's vector of sides.
    pub fn index(self) -> (r: usize)
        ensures
            r < 6,
            r == color_index(self),
            index_color(r as int) == self,
    {
        match self {
            Color::White => 0,
            Color::Yellow => 1,
            Color::Red => 2,
            Color::Orange => 3,
            Color::Blue => 4,
            Color::Green => 5,
        }
    }

    /// The neighbor this face shows on top when in its home orientation:
    /// the first entry of its neighbor order.
    pub fn default_top(self) -> (r: Color)
        ensures
            r == spec_neighbor_order(self)[0],
    {
        let order = self.neighbor_order();
        order[0]
    }

    /// The axis this face rotates about.
    pub fn rotation_axis(self) -> (r: RotationAxis)
        ensures
            r == spec_rotation_axis(self),
    {
        match self {
            Color::White | Color::Yellow => RotationAxis::YAxis,
            Color::Red | Color::Orange => RotationAxis::XAxis,
            Color::Blue | Color::Green => RotationAxis::ZAxis,
        }
    }

    /// The single-letter code this face renders as.
    pub fn letter(self) -> (r: char)
        ensures
            r == spec_letter(self),
    {
        match self {
            Color::White => 'W',
            Color::Yellow => 'Y',
            Color::Red => 'R',
            Color::Orange => 'O',
            Color::Blue => 'B',
            Color::Green => 'G',
        }
    }

    /// The single-letter code as a one-character string slice, for
    /// building text renderings.
    pub fn letter_str(self) -> (r: &'static str)
        ensures
            r@ == seq![spec_letter(self)],
    {
        match self {
            Color::White => {
                proof {
                    reveal_strlit("W");
                    assert("W"@ =~= seq!['W']);
                }
                "W"
            },
            Color::Yellow => {
                proof {
                    reveal_strlit("Y");
                    assert("Y"@ =~= seq!['Y']);
                }
                "Y"
            },
            Color::Red => {
                proof {
                    reveal_strlit("R");
                    assert("R"@ =~= seq!['R']);
                }
                "R"
            },
            Color::Orange => {
                proof {
                    reveal_strlit("O");
                    assert("O"@ =~= seq!['O']);
                }
                "O"
            },
            Color::Blue => {
                proof {
                    reveal_strlit("B");
                    assert("B"@ =~= seq!['B']);
                }
                "B"
            },
            Color::Green => {
                proof {
                    reveal_strlit("G");
                    assert("G"@ =~= seq!['G']);
                }
                "G"
            },
        }
    }
}

/// The adjacency table is internally consistent: every face lists exactly
/// the four faces other than itself and its opposite, without repetition;
/// adjacency is symmetric; and `spec_neighbor_pos` inverts the table.
pub proof fn lemma_neighbor_table(c: Color)
    ensures
        spec_neighbor_order(c).len() == 4,
        forall|i: int, k: int|
            0 <= i < 4 && 0 <= k < 4 && i != k ==> spec_neighbor_order(c)[i]
                != spec_neighbor_order(c)[k],
        forall|i: int| 0 <= i < 4 ==> spec_neighbor_order(c)[i] != c,
        forall|i: int| 0 <= i < 4 ==> spec_neighbor_order(c)[i] != spec_opposite(c),
        forall|i: int| 0 <= i < 4 ==> is_adjacent(spec_neighbor_order(c)[i], c),
        forall|i: int| 0 <= i < 4 ==> is_adjacent(c, spec_neighbor_order(c)[i]),
        forall|n: Color| 0 <= #[trigger] spec_neighbor_pos(c, n) < 4,
        forall|i: int| 0 <= i < 4 ==> spec_neighbor_pos(c, spec_neighbor_order(c)[i]) == i,
        forall|n: Color| is_adjacent(c, n) ==> spec_neighbor_order(c)[spec_neighbor_pos(c, n)]
            == n,
        forall|n: Color| is_adjacent(c, n) ==> 0 <= spec_neighbor_pos(c, n) < 4,
        !is_adjacent(c, spec_opposite(c)),
        !is_adjacent(c, c),
        spec_opposite(c) != c,
{
    reveal(spec_neighbor_order);
    reveal(is_adjacent);
    reveal(spec_neighbor_pos);
    match c {
        Color::White => {
            assert(spec_neighbor_order(c) =~= seq![Color::Orange, Color::Blue, Color::Red, Color::Green]);
        },
        Color::Yellow => {
            assert(spec_neighbor_order(c) =~= seq![Color::Red, Color::Blue, Color::Orange, Color::Green]);
        },
        Color::Red => {
            assert(spec_neighbor_order(c) =~= seq![Color::White, Color::Blue, Color::Yellow, Color::Green]);
        },
        Color::Orange => {
            assert(spec_neighbor_order(c) =~= seq![Color::White, Color::Green, Color::Yellow, Color::Blue]);
        },
        Color::Blue => {
            assert(spec_neighbor_order(c) =~= seq![Color::White, Color::Orange, Color::Yellow, Color::Red]);
        },
        Color::Green => {
            assert(spec_neighbor_order(c) =~= seq![Color::White, Color::Red, Color::Yellow, Color::Orange]);
        },
    }
}

/// `color_index` and `index_color` are mutually inverse, so distinct faces
/// occupy distinct storage slots.
pub proof fn lemma_color_index(c: Color)
    ensures
        0 <= color_index(c) < 6,
        index_color(color_index(c)) == c,
        forall|i: int| 0 <= i < 6 ==> color_index(index_color(i)) == i,
{
}

} // verus!
