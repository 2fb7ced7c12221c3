//! One face's sticker state: a ring of eight non-center stickers plus a
//! rotation offset.
//!
//! The eight stickers are laid out clockwise from a fixed corner:
//!
//! ```text
//!  0  1  2
//!  7     3
//!  6  5  4
//! ```
//!
//! Spinning the face is an O(1) bump of `rotation_offset` by 2 ring slots
//! per quarter turn; the edge row shared with a neighbor is read and written
//! through the same offset arithmetic, so the stickers themselves never move
//! when the face spins.

use vstd::prelude::*;
use vstd::string::StringExecFns;
use crate::color::Color;
use crate::color::is_adjacent;
use crate::color::spec_letter;
use crate::color::spec_neighbor_order;
use crate::color::spec_neighbor_pos;
use crate::util::RotationDirection;
use crate::util::spec_jump_offset;

verus! {

/// The mathematical state of one face: its identity, the eight ring
/// stickers, and how far the face has been spun from its home orientation.
#[verifier::ext_equal]
pub struct SideView {
    pub color: Color,
    pub tiles: Seq<Color>,
    pub offset: int,
}

/// Well-formedness of a face state: eight stickers, and an even offset
/// below 8 (each quarter turn moves the ring by two slots).
pub open spec fn side_wf(s: SideView) -> bool {
    &&& s.tiles.len() == 8
    &&& 0 <= s.offset < 8
    &&& s.offset % 2 == 0
}

/// The face state of a solved face: every sticker carries the face's own
/// color and the face sits in its home orientation.
pub open spec fn solved_side(color: Color) -> SideView {
    SideView { color, tiles: Seq::new(8, |k: int| color), offset: 0 }
}

/// The ring slot holding sticker `k` (0..3) of the edge row facing
/// neighbor `n`.
pub open spec fn slot(s: SideView, n: Color, k: int) -> int {
    (s.offset + 2 * spec_neighbor_pos(s.color, n) + k) % 8
}

/// The three stickers along the edge shared with neighbor `n`, clockwise.
/// The row spans the two slots of the shared edge segment plus the corner
/// slot it shares with the next edge.
pub open spec fn row_of(s: SideView, n: Color) -> Seq<Color> {
    Seq::new(3, |k: int| s.tiles[slot(s, n, k)])
}

/// `s` with the edge row facing neighbor `n` overwritten by `row`.
pub open spec fn with_row(s: SideView, n: Color, row: Seq<Color>) -> SideView {
    SideView {
        tiles: s.tiles.update(slot(s, n, 0), row[0]).update(slot(s, n, 1), row[1]).update(
            slot(s, n, 2),
            row[2],
        ),
        ..s
    }
}

/// `s` spun in place by one quarter turn in direction `d`: the offset moves
/// by two ring slots, the stickers stay put.
pub open spec fn spun(s: SideView, d: RotationDirection) -> SideView {
    SideView { offset: (s.offset + 2 * spec_jump_offset(d)) % 8, ..s }
}

/// The ring read back in its home orientation: slot 0 of the result aligns
/// with the fixed corner regardless of how far the face has been spun.
pub open spec fn normalized_of(s: SideView) -> Seq<Color> {
    Seq::new(8, |k: int| s.tiles[(s.offset + k) % 8])
}

/// One line of a face's text rendering: three sticker letters, each pair
/// separated by two spaces.
pub open spec fn line_text(a: Color, b: Color, c: Color) -> Seq<char> {
    seq![spec_letter(a), ' ', ' ', spec_letter(b), ' ', ' ', spec_letter(c)]
}

/// The three text lines of a face's 3x3 rendering. The top line is the
/// edge row facing the first neighbor; the middle line shows the sides of
/// the fourth and second neighbors' rows around the center letter; the
/// bottom line is the third neighbor's row reversed, so the nine letters
/// read as the face looks when viewed with its first neighbor on top.
pub open spec fn side_lines(s: SideView) -> Seq<Seq<char>> {
    let o = spec_neighbor_order(s.color);
    let r0 = row_of(s, o[0]);
    let r1 = row_of(s, o[1]);
    let r2 = row_of(s, o[2]);
    let r3 = row_of(s, o[3]);
    seq![
        line_text(r0[0], r0[1], r0[2]),
        line_text(r3[1], s.color, r1[1]),
        line_text(r2[2], r2[1], r2[0]),
    ]
}

/// The three ring slots of any edge row are within bounds and pairwise
/// distinct.
pub proof fn lemma_slots(s: SideView, n: Color)
    requires
        side_wf(s),
    ensures
        forall|k: int| 0 <= k < 3 ==> 0 <= #[trigger] slot(s, n, k) < 8,
        slot(s, n, 0) != slot(s, n, 1),
        slot(s, n, 0) != slot(s, n, 2),
        slot(s, n, 1) != slot(s, n, 2),
{
    reveal(spec_neighbor_pos);
}

/// Reading a row straight after writing it returns exactly what was
/// written.
pub proof fn lemma_row_of_with_row(s: SideView, n: Color, row: Seq<Color>)
    requires
        side_wf(s),
        row.len() == 3,
    ensures
        row_of(with_row(s, n, row), n) == row,
{
    lemma_slots(s, n);
    assert(row_of(with_row(s, n, row), n) =~= row);
}

/// Writing the same row twice keeps only the second write.
pub proof fn lemma_with_row_absorb(s: SideView, n: Color, r1: Seq<Color>, r2: Seq<Color>)
    requires
        side_wf(s),
    ensures
        with_row(with_row(s, n, r1), n, r2) == with_row(s, n, r2),
{
    lemma_slots(s, n);
    assert(with_row(with_row(s, n, r1), n, r2).tiles =~= with_row(s, n, r2).tiles);
    assert(with_row(with_row(s, n, r1), n, r2) =~= with_row(s, n, r2));
}

/// Writing back the row a face already shows leaves the face unchanged.
pub proof fn lemma_with_row_self(s: SideView, n: Color)
    requires
        side_wf(s),
    ensures
        with_row(s, n, row_of(s, n)) == s,
{
    lemma_slots(s, n);
    assert(with_row(s, n, row_of(s, n)).tiles =~= s.tiles);
    assert(with_row(s, n, row_of(s, n)) =~= s);
}

/// Overwriting a row touches nothing else: identity, offset, and every
/// ring slot outside the row keep their values, and well-formedness is
/// preserved.
pub proof fn lemma_with_row_frame(s: SideView, n: Color, row: Seq<Color>)
    requires
        side_wf(s),
    ensures
        side_wf(with_row(s, n, row)),
        with_row(s, n, row).color == s.color,
        with_row(s, n, row).offset == s.offset,
        forall|j: int|
            0 <= j < 8 && j != slot(s, n, 0) && j != slot(s, n, 1) && j != slot(s, n, 2)
                ==> with_row(s, n, row).tiles[j] == s.tiles[j],
{
    lemma_slots(s, n);
}

/// One face of the cube: the face's identity color, its eight non-center
/// stickers clockwise from a fixed corner, and the rotation offset
/// recording how far the face has been spun.
#[derive(Copy, Clone)]
pub struct Side {
    color: Color,
    tiles: [Color; 8],
    rotation_offset: usize,
}

impl View for Side {
    type V = SideView;

    closed spec fn view(&self) -> SideView {
        SideView { color: self.color, tiles: self.tiles@, offset: self.rotation_offset as int }
    }
}

impl Side {
    /// Well-formedness of the stored face state.
    pub open spec fn wf(self) -> bool {
        side_wf(self@)
    }

    /// A solved face: all eight stickers carry `color`, offset zero.
    pub fn new(color: Color) -> (r: Self)
        ensures
            r@ == solved_side(color),
            r.wf(),
    {
        let r = Self { color, tiles: [color; 8], rotation_offset: 0 };
        proof {
            assert(r@.tiles =~= solved_side(color).tiles);
            assert(r@ =~= solved_side(color));
        }
        r
    }

    /// The face's own identity color (also the color of its center
    /// sticker, which is never stored and never changes).
    pub fn color(&self) -> (r: Color)
        ensures
            r == self@.color,
    {
        self.color
    }

    /// Spin this face in place by one quarter turn: an O(1) offset update,
    /// no sticker moves.
    pub fn rotate(&mut self, direction: RotationDirection)
        requires
            old(self).wf(),
        ensures
            final(self)@ == spun(old(self)@, direction),
            final(self).wf(),
    {
        self.rotation_offset = (self.rotation_offset + direction.jump_offset() * 2) % 8;
    }

    /// The three stickers along the edge shared with `side`, clockwise,
    /// starting at ring slot `(rotation_offset + 2 * neighbor_pos(side)) % 8`.
    pub fn get_row(&self, side: Color) -> (r: [Color; 3])
        requires
            self.wf(),
            is_adjacent(self@.color, side),
        ensures
            r@ == row_of(self@, side),
    {
        let pos = self.rotation_offset + self.color.neighbor_pos(side) * 2;
        let r = [self.tiles[pos % 8], self.tiles[(pos + 1) % 8], self.tiles[(pos + 2) % 8]];
        proof {
            assert(r@ =~= row_of(self@, side));
        }
        r
    }

    /// Overwrite the three stickers along the edge shared with `side` with
    /// `row`, in the same clockwise order `get_row` reads them.
    pub fn set_row(&mut self, side: Color, row: [Color; 3])
        requires
            old(self).wf(),
            is_adjacent(old(self)@.color, side),
        ensures
            final(self)@ == with_row(old(self)@, side, row@),
            final(self).wf(),
    {
        let pos = self.rotation_offset + self.color.neighbor_pos(side) * 2;
        self.tiles[pos % 8] = row[0];
        self.tiles[(pos + 1) % 8] = row[1];
        self.tiles[(pos + 2) % 8] = row[2];
        proof {
            assert(self@ =~= with_row(old(self)@, side, row@));
        }
    }

    /// The ring rotated back to its home orientation: entry `k` of the
    /// result is the sticker at ring slot `(rotation_offset + k) % 8`, so
    /// the result is offset-free and fit for display.
    pub fn normalized_tiles(&self) -> (r: [Color; 8])
        requires
            self.wf(),
        ensures
            r@ == normalized_of(self@),
    {
        let o = self.rotation_offset;
        let r = [
            self.tiles[o % 8],
            self.tiles[(o + 1) % 8],
            self.tiles[(o + 2) % 8],
            self.tiles[(o + 3) % 8],
            self.tiles[(o + 4) % 8],
            self.tiles[(o + 5) % 8],
            self.tiles[(o + 6) % 8],
            self.tiles[(o + 7) % 8],
        ];
        proof {
            assert(r@ =~= normalized_of(self@));
        }
        r
    }

    /// The rotation offset this face has accumulated, in ring slots.
    pub fn rotation_offset(&self) -> (r: usize)
        ensures
            r == self@.offset,
    {
        self.rotation_offset
    }

    /// The face's text rendering: three lines of three sticker letters
    /// each, read with the face's first neighbor on top.
    pub fn string_array(&self) -> (r: [String; 3])
        requires
            self.wf(),
        ensures
            r@[0]@ == side_lines(self@)[0],
            r@[1]@ == side_lines(self@)[1],
            r@[2]@ == side_lines(self@)[2],
    {
        proof {
            reveal(is_adjacent);
        }
        let order = self.color.neighbor_order();
        let s0 = self.get_row(order[0]);
        let s1 = self.get_row(order[1]);
        let s2 = self.get_row(order[2]);
        let s3 = self.get_row(order[3]);
        let line0 = line_string(s0[0], s0[1], s0[2]);
        let line1 = line_string(s3[1], self.color, s1[1]);
        let line2 = line_string(s2[2], s2[1], s2[0]);
        [line0, line1, line2]
    }
}

/// Renders one text line of a face: three letters with two spaces between
/// each pair.
fn line_string(a: Color, b: Color, c: Color) -> (r: String)
    ensures
        r@ == line_text(a, b, c),
{
    let mut s = String::new();
    s.append(a.letter_str());
    s.append("  ");
    s.append(b.letter_str());
    s.append("  ");
    s.append(c.letter_str());
    proof {
        reveal_strlit("  ");
        assert("  "@ =~= seq![' ', ' ']);
        assert(s@ =~= line_text(a, b, c));
    }
    s
}

} // verus!
