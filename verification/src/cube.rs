//! The whole cube: six face states and the quarter-turn algorithm.
//!
//! A turn of face `F` reads the edge row each of `F`'s four neighbors shows
//! toward `F` (one consistent snapshot), writes each neighbor the row that
//! previously belonged to the neighbor `jump_offset` positions further
//! around `F`'s neighbor cycle, and finally spins `F`'s own ring by one
//! quarter turn. The function `spec_rotate` states that permutation
//! mathematically; the executable `rotate` is proved to implement it
//! exactly.

use vstd::prelude::*;
use vstd::string::StringExecFns;
use crate::color::Color;
use crate::color::color_index;
use crate::color::index_color;
use crate::color::is_adjacent;
use crate::color::lemma_color_index;
use crate::color::lemma_neighbor_table;
use crate::color::spec_neighbor_order;
use crate::color::spec_neighbor_pos;
use crate::color::spec_opposite;
use crate::side::Side;
use crate::side::SideView;
use crate::side::lemma_row_of_with_row;
use crate::side::lemma_with_row_absorb;
use crate::side::lemma_with_row_frame;
use crate::side::lemma_with_row_self;
use crate::side::row_of;
use crate::side::side_lines;
use crate::side::side_wf;
use crate::side::solved_side;
use crate::side::spun;
use crate::side::with_row;
use crate::util::RotationDirection;
use crate::util::spec_jump_offset;
use crate::util::spec_reverse;

verus! {

/// Well-formedness of a cube state: six faces, the face at index `i` being
/// the one `index_color(i)` names, each with a well-formed ring.
pub open spec fn cube_wf(cv: Seq<SideView>) -> bool {
    &&& cv.len() == 6
    &&& forall|i: int|
        0 <= i < 6 ==> side_wf(#[trigger] cv[i]) && cv[i].color == index_color(i)
}

/// The solved cube: every face solved.
pub open spec fn solved_cube() -> Seq<SideView> {
    Seq::new(6, |i: int| solved_side(index_color(i)))
}

/// What one face of the cube becomes under a quarter turn of `face` in
/// direction `d`: the turned face spins in place; each neighbor at
/// position `p` of `face`'s neighbor cycle receives the edge row that the
/// neighbor `jump_offset(d)` positions further around the cycle showed
/// toward `face`; the opposite face is untouched.
///
/// Kept opaque so that reasoning about chains of turns goes through the
/// per-face lemmas below instead of unfolding nested turn states.
#[verifier::opaque]
pub open spec fn rotated_side(
    cv: Seq<SideView>,
    face: Color,
    d: RotationDirection,
    ci: int,
) -> SideView {
    let c = index_color(ci);
    let s = cv[ci];
    if c == face {
        spun(s, d)
    } else if is_adjacent(face, c) {
        let p = spec_neighbor_pos(face, c);
        let src = spec_neighbor_order(face)[(p + spec_jump_offset(d)) % 4];
        with_row(s, face, row_of(cv[color_index(src)], face))
    } else {
        s
    }
}

/// The cube state after a quarter turn of `face` in direction `d`.
pub open spec fn spec_rotate(cv: Seq<SideView>, face: Color, d: RotationDirection) -> Seq<
    SideView,
> {
    Seq::new(6, |ci: int| rotated_side(cv, face, d, ci))
}

/// A turn keeps the cube well formed: still six faces, same identities,
/// rings still well formed.
#[verifier::spinoff_prover]
pub proof fn lemma_rotate_preserves_wf(cv: Seq<SideView>, face: Color, d: RotationDirection)
    requires
        cube_wf(cv),
    ensures
        cube_wf(spec_rotate(cv, face, d)),
{
    lemma_neighbor_table(face);
    assert forall|ci: int| 0 <= ci < 6 implies side_wf(#[trigger] spec_rotate(cv, face, d)[ci])
        && spec_rotate(cv, face, d)[ci].color == index_color(ci) by {
        reveal(rotated_side);
        let c = index_color(ci);
        if c == face {
            assert(side_wf(spun(cv[ci], d)));
        } else if is_adjacent(face, c) {
            let p = spec_neighbor_pos(face, c);
            let src = spec_neighbor_order(face)[(p + spec_jump_offset(d)) % 4];
            lemma_with_row_frame(cv[ci], face, row_of(cv[color_index(src)], face));
        }
    }
}

/// What a turn of `face` does to the neighbor at position `p` of `face`'s
/// neighbor cycle: its row facing `face` is overwritten with the row that
/// the neighbor `jump_offset(d)` positions further around showed, and
/// nothing else of it changes.
pub proof fn lemma_rotate_at(cv: Seq<SideView>, face: Color, d: RotationDirection, p: int)
    requires
        cube_wf(cv),
        0 <= p < 4,
    ensures
        spec_rotate(cv, face, d)[color_index(spec_neighbor_order(face)[p])] == with_row(
            cv[color_index(spec_neighbor_order(face)[p])],
            face,
            row_of(
                cv[color_index(
                    spec_neighbor_order(face)[(p + spec_jump_offset(d)) % 4],
                )],
                face,
            ),
        ),
{
    reveal(rotated_side);
    lemma_neighbor_table(face);
    let c = spec_neighbor_order(face)[p];
    lemma_color_index(c);
}

/// A turn moves edge rows along the neighbor cycle: after a turn of
/// `face`, the neighbor at position `p` shows toward `face` exactly the
/// row that the neighbor at position `(p + jump_offset(d)) % 4` showed
/// before.
pub proof fn lemma_rotate_row(cv: Seq<SideView>, face: Color, d: RotationDirection, p: int)
    requires
        cube_wf(cv),
        0 <= p < 4,
    ensures
        row_of(spec_rotate(cv, face, d)[color_index(spec_neighbor_order(face)[p])], face)
            == row_of(
            cv[color_index(spec_neighbor_order(face)[(p + spec_jump_offset(d)) % 4])],
            face,
        ),
{
    lemma_neighbor_table(face);
    let c = spec_neighbor_order(face)[p];
    lemma_color_index(c);
    lemma_rotate_at(cv, face, d, p);
    let src = spec_neighbor_order(face)[(p + spec_jump_offset(d)) % 4];
    lemma_row_of_with_row(cv[color_index(c)], face, row_of(cv[color_index(src)], face));
}

/// A turn of `face` leaves every face that is neither `face` nor one of
/// its four neighbors exactly as it was.
pub proof fn lemma_rotate_untouched(cv: Seq<SideView>, face: Color, d: RotationDirection, c: Color)
    requires
        cube_wf(cv),
        c != face,
        !is_adjacent(face, c),
    ensures
        spec_rotate(cv, face, d)[color_index(c)] == cv[color_index(c)],
{
    reveal(rotated_side);
    lemma_color_index(c);
}

/// Law (opposite-face non-interference): a turn of `face` never changes
/// the stickers, the offset, or anything else of the face opposite
/// `face`.
pub proof fn lemma_opposite_face_untouched(cv: Seq<SideView>, face: Color, d: RotationDirection)
    requires
        cube_wf(cv),
    ensures
        spec_rotate(cv, face, d)[color_index(spec_opposite(face))] == cv[color_index(
            spec_opposite(face),
        )],
{
    lemma_neighbor_table(face);
    lemma_rotate_untouched(cv, face, d, spec_opposite(face));
}

/// Law (center invariance): no turn changes any face's own identity; only
/// sticker contents and rotation offsets vary.
pub proof fn lemma_center_invariance(cv: Seq<SideView>, face: Color, d: RotationDirection)
    requires
        cube_wf(cv),
    ensures
        spec_rotate(cv, face, d).len() == 6,
        forall|ci: int|
            0 <= ci < 6 ==> #[trigger] spec_rotate(cv, face, d)[ci].color == cv[ci].color,
{
    lemma_rotate_preserves_wf(cv, face, d);
}

/// The turned face itself only spins in place: stickers and identity stay,
/// the offset moves by one quarter turn.
pub proof fn lemma_rotate_face(cv: Seq<SideView>, face: Color, d: RotationDirection)
    requires
        cube_wf(cv),
    ensures
        spec_rotate(cv, face, d)[color_index(face)] == spun(cv[color_index(face)], d),
{
    reveal(rotated_side);
    lemma_color_index(face);
}


/// The neighbor case of the inverse-pairing law: a turn and its reverse
/// write a neighbor's row twice, and the second write restores the row the
/// neighbor originally showed.
proof fn lemma_inverse_neighbor(cv: Seq<SideView>, face: Color, d: RotationDirection, p: int)
    requires
        cube_wf(cv),
        0 <= p < 4,
    ensures
        spec_rotate(spec_rotate(cv, face, d), face, spec_reverse(d))[color_index(
            spec_neighbor_order(face)[p],
        )] == cv[color_index(spec_neighbor_order(face)[p])],
{
    let j = spec_jump_offset(d);
    let rj = spec_jump_offset(spec_reverse(d));
    let o = spec_neighbor_order(face);
    let c = o[p];
    let ci = color_index(c);
    let cv1 = spec_rotate(cv, face, d);
    lemma_rotate_preserves_wf(cv, face, d);
    lemma_color_index(c);
    let q = (p + rj) % 4;
    lemma_rotate_at(cv, face, d, p);
    lemma_rotate_at(cv1, face, spec_reverse(d), p);
    lemma_rotate_row(cv, face, d, q);
    assert((q + j) % 4 == p);
    assert(row_of(cv1[color_index(o[q])], face) == row_of(cv[ci], face));
    lemma_with_row_absorb(
        cv[ci],
        face,
        row_of(cv[color_index(o[(p + j) % 4])], face),
        row_of(cv[ci], face),
    );
    lemma_with_row_self(cv[ci], face);
}

/// Law (inverse pairing): a turn followed by the turn of the same face in
/// the opposite direction restores the exact previous cube state.
#[verifier::spinoff_prover]
pub proof fn lemma_rotate_inverse(cv: Seq<SideView>, face: Color, d: RotationDirection)
    requires
        cube_wf(cv),
    ensures
        spec_rotate(spec_rotate(cv, face, d), face, spec_reverse(d)) == cv,
{
    let cv1 = spec_rotate(cv, face, d);
    let cv2 = spec_rotate(cv1, face, spec_reverse(d));
    lemma_rotate_preserves_wf(cv, face, d);
    lemma_neighbor_table(face);
    assert forall|ci: int| 0 <= ci < 6 implies cv2[ci] == cv[ci] by {
        let c = index_color(ci);
        lemma_color_index(c);
        if c == face {
            lemma_rotate_face(cv, face, d);
            lemma_rotate_face(cv1, face, spec_reverse(d));
            assert(side_wf(cv[ci]));
            assert(spun(spun(cv[ci], d), spec_reverse(d)) =~= cv[ci]);
        } else if is_adjacent(face, c) {
            lemma_inverse_neighbor(cv, face, d, spec_neighbor_pos(face, c));
        } else {
            lemma_rotate_untouched(cv, face, d, c);
            lemma_rotate_untouched(cv1, face, spec_reverse(d), c);
        }
    }
    assert(cv2 =~= cv);
}

/// The face case of the identity-by-repetition law: four quarter spins of
/// a face's own ring move its offset by a full revolution and back to
/// where it started.
#[verifier::spinoff_prover]
proof fn lemma_four_face(cv: Seq<SideView>, face: Color, d: RotationDirection)
    requires
        cube_wf(cv),
    ensures
        spec_rotate(
            spec_rotate(spec_rotate(spec_rotate(cv, face, d), face, d), face, d),
            face,
            d,
        )[color_index(face)] == cv[color_index(face)],
{
    let ci = color_index(face);
    let cv1 = spec_rotate(cv, face, d);
    let cv2 = spec_rotate(cv1, face, d);
    let cv3 = spec_rotate(cv2, face, d);
    lemma_rotate_preserves_wf(cv, face, d);
    lemma_rotate_preserves_wf(cv1, face, d);
    lemma_rotate_preserves_wf(cv2, face, d);
    lemma_color_index(face);
    lemma_rotate_face(cv, face, d);
    lemma_rotate_face(cv1, face, d);
    lemma_rotate_face(cv2, face, d);
    lemma_rotate_face(cv3, face, d);
    assert(side_wf(cv[ci]));
    let j = spec_jump_offset(d);
    assert(j == 1 || j == 3);
    let o0 = cv[ci].offset;
    assert((((((((o0 + 2 * j) % 8) + 2 * j) % 8) + 2 * j) % 8) + 2 * j) % 8 == o0);
    assert(spun(spun(spun(spun(cv[ci], d), d), d), d) =~= cv[ci]);
}

/// The neighbor case of the identity-by-repetition law: across four
/// turns, a neighbor's row facing the turned face travels once around the
/// 4-cycle and the fourth write restores the row it originally showed;
/// nothing outside that row is ever touched.
proof fn lemma_four_neighbor(cv: Seq<SideView>, face: Color, d: RotationDirection, p: int)
    requires
        cube_wf(cv),
        0 <= p < 4,
    ensures
        spec_rotate(
            spec_rotate(spec_rotate(spec_rotate(cv, face, d), face, d), face, d),
            face,
            d,
        )[color_index(spec_neighbor_order(face)[p])] == cv[color_index(
            spec_neighbor_order(face)[p],
        )],
{
    let j = spec_jump_offset(d);
    let o = spec_neighbor_order(face);
    let c = o[p];
    let ci = color_index(c);
    let cv1 = spec_rotate(cv, face, d);
    let cv2 = spec_rotate(cv1, face, d);
    let cv3 = spec_rotate(cv2, face, d);
    lemma_rotate_preserves_wf(cv, face, d);
    lemma_rotate_preserves_wf(cv1, face, d);
    lemma_rotate_preserves_wf(cv2, face, d);
    lemma_color_index(c);
    lemma_rotate_at(cv, face, d, p);
    lemma_rotate_at(cv1, face, d, p);
    lemma_rotate_at(cv2, face, d, p);
    lemma_rotate_at(cv3, face, d, p);
    lemma_rotate_row(cv2, face, d, (p + j) % 4);
    lemma_rotate_row(cv1, face, d, (p + 2 * j) % 4);
    lemma_rotate_row(cv, face, d, (p + 3 * j) % 4);
    assert(((p + j) % 4 + j) % 4 == (p + 2 * j) % 4);
    assert(((p + 2 * j) % 4 + j) % 4 == (p + 3 * j) % 4);
    assert(((p + 3 * j) % 4 + j) % 4 == p);
    assert(row_of(cv3[color_index(o[(p + j) % 4])], face) == row_of(cv[ci], face));
    let r1 = row_of(cv[color_index(o[(p + j) % 4])], face);
    let r2 = row_of(cv1[color_index(o[(p + j) % 4])], face);
    let r3 = row_of(cv2[color_index(o[(p + j) % 4])], face);
    lemma_with_row_absorb(cv[ci], face, r1, r2);
    lemma_with_row_absorb(cv[ci], face, r2, r3);
    lemma_with_row_absorb(cv[ci], face, r3, row_of(cv[ci], face));
    lemma_with_row_self(cv[ci], face);
}

/// Law (identity by repetition): four quarter turns of the same face in
/// the same direction restore the exact previous cube state.
#[verifier::rlimit(100)]
#[verifier::spinoff_prover]
pub proof fn lemma_rotate_four_identity(cv: Seq<SideView>, face: Color, d: RotationDirection)
    requires
        cube_wf(cv),
    ensures
        spec_rotate(
            spec_rotate(spec_rotate(spec_rotate(cv, face, d), face, d), face, d),
            face,
            d,
        ) == cv,
{
    let cv1 = spec_rotate(cv, face, d);
    let cv2 = spec_rotate(cv1, face, d);
    let cv3 = spec_rotate(cv2, face, d);
    let cv4 = spec_rotate(cv3, face, d);
    lemma_rotate_preserves_wf(cv, face, d);
    lemma_rotate_preserves_wf(cv1, face, d);
    lemma_rotate_preserves_wf(cv2, face, d);
    lemma_neighbor_table(face);
    assert forall|ci: int| 0 <= ci < 6 implies cv4[ci] == cv[ci] by {
        let c = index_color(ci);
        lemma_color_index(c);
        if c == face {
            lemma_four_face(cv, face, d);
        } else if is_adjacent(face, c) {
            lemma_four_neighbor(cv, face, d, spec_neighbor_pos(face, c));
        } else {
            lemma_rotate_untouched(cv, face, d, c);
            lemma_rotate_untouched(cv1, face, d, c);
            lemma_rotate_untouched(cv2, face, d, c);
            lemma_rotate_untouched(cv3, face, d, c);
        }
    }
    assert(cv4 =~= cv);
}

/// A newline in the cube's text rendering.
pub open spec fn nl() -> Seq<char> {
    seq!['\n']
}

/// The fixed four-space separator between side faces in the unfolded
/// rendering.
pub open spec fn gap() -> Seq<char> {
    seq![' ', ' ', ' ', ' ']
}

/// Line `i` of the middle band of the unfolded rendering: the four side
/// faces, in the bottom face's neighbor order, each contributing its line
/// `i` followed by the four-space separator.
pub open spec fn middle_line(cv: Seq<SideView>, i: int) -> Seq<char> {
    let o = spec_neighbor_order(Color::Yellow);
    side_lines(cv[color_index(o[0])])[i] + gap() + side_lines(cv[color_index(o[1])])[i] + gap()
        + side_lines(cv[color_index(o[2])])[i] + gap() + side_lines(cv[color_index(o[3])])[i]
        + gap()
}

/// The whole unfolded-cross text of the cube: the top face's three lines,
/// a blank line, the middle band of the four side faces, a blank line,
/// then the bottom face's three lines.
pub open spec fn cube_text(cv: Seq<SideView>) -> Seq<char> {
    let w = side_lines(cv[color_index(Color::White)]);
    let y = side_lines(cv[color_index(Color::Yellow)]);
    w[0] + nl() + w[1] + nl() + w[2] + nl() + nl() + middle_line(cv, 0) + nl() + middle_line(
        cv,
        1,
    ) + nl() + middle_line(cv, 2) + nl() + nl() + y[0] + nl() + y[1] + nl() + y[2] + nl()
}

/// Assembles a turn from its pointwise effects: a state that spins the
/// turned face, permutes the four neighbors' rows along the cycle, and
/// leaves every other face alone is exactly `spec_rotate`.
#[verifier::rlimit(100)]
#[verifier::spinoff_prover]
proof fn lemma_turn_assembled(
    cv: Seq<SideView>,
    fin: Seq<SideView>,
    face: Color,
    d: RotationDirection,
)
    requires
        cube_wf(cv),
        fin.len() == 6,
        fin[color_index(face)] == spun(cv[color_index(face)], d),
        forall|p: int|
            0 <= p < 4 ==> #[trigger] fin[color_index(spec_neighbor_order(face)[p])] == with_row(
                cv[color_index(spec_neighbor_order(face)[p])],
                face,
                row_of(
                    cv[color_index(
                        spec_neighbor_order(face)[(p + spec_jump_offset(d)) % 4],
                    )],
                    face,
                ),
            ),
        forall|c: Color|
            c != face && !is_adjacent(face, c) ==> #[trigger] fin[color_index(c)]
                == cv[color_index(c)],
    ensures
        fin == spec_rotate(cv, face, d),
{
    lemma_neighbor_table(face);
    assert forall|ci: int| 0 <= ci < 6 implies fin[ci] == spec_rotate(cv, face, d)[ci] by {
        let c = index_color(ci);
        lemma_color_index(c);
        if c == face {
            lemma_rotate_face(cv, face, d);
        } else if is_adjacent(face, c) {
            let p = spec_neighbor_pos(face, c);
            lemma_rotate_at(cv, face, d, p);
            assert(spec_neighbor_order(face)[p] == c);
        } else {
            lemma_rotate_untouched(cv, face, d, c);
        }
    }
    assert(fin =~= spec_rotate(cv, face, d));
}

/// The cube: owns exactly six face states, indexed by `color_index`.
pub struct Cube {
    sides: Vec<Side>,
}

impl View for Cube {
    type V = Seq<SideView>;

    closed spec fn view(&self) -> Seq<SideView> {
        self.sides@.map_values(|s: Side| s@)
    }
}

impl Cube {
    /// Well-formedness of the stored cube state.
    pub open spec fn wf(self) -> bool {
        cube_wf(self@)
    }

    /// A solved cube.
    pub fn new() -> (r: Self)
        ensures
            r@ == solved_cube(),
            r.wf(),
    {
        let mut sides: Vec<Side> = Vec::new();
        sides.push(Side::new(Color::White));
        sides.push(Side::new(Color::Yellow));
        sides.push(Side::new(Color::Red));
        sides.push(Side::new(Color::Orange));
        sides.push(Side::new(Color::Blue));
        sides.push(Side::new(Color::Green));
        let r = Cube { sides };
        proof {
            assert(r@ =~= solved_cube());
        }
        r
    }

    /// Read-only access to one face's state.
    pub fn side(&self, color: Color) -> (r: &Side)
        requires
            self.wf(),
        ensures
            r@ == self@[color_index(color)],
            r.wf(),
    {
        let i = color.index();
        proof {
            assert(side_wf(self@[color_index(color)]));
        }
        &self.sides[i]
    }

    /// Mutable access to one face's state. The cube afterwards holds, at
    /// that face's index, whatever the caller leaves behind the returned
    /// reference; every other face is untouched.
    pub fn side_mut(&mut self, color: Color) -> (r: &mut Side)
        requires
            old(self).wf(),
        ensures
            (*r)@ == old(self)@[color_index(color)],
            final(self)@.len() == 6,
            final(self)@[color_index(color)] == final(r)@,
            forall|i: int|
                0 <= i < 6 && i != color_index(color) ==> final(self)@[i] == old(self)@[i],
    {
        let i = color.index();
        vstd::std_specs::vec::vec_index_mut(&mut self.sides, i)
    }

    /// Apply one quarter turn of `side` in direction `direction`.
    ///
    /// The four neighbors' edge rows are read in one pass before any write,
    /// so the cyclic permutation is computed from a single consistent
    /// snapshot; then each neighbor receives the row of the neighbor
    /// `jump_offset` positions further around the cycle, and the turned
    /// face's own ring spins by one quarter turn.
    #[verifier::rlimit(100)]
    #[verifier::spinoff_prover]
    pub fn rotate(&mut self, side: Color, direction: RotationDirection)
        requires
            old(self).wf(),
        ensures
            final(self)@ == spec_rotate(old(self)@, side, direction),
            final(self).wf(),
    {
        let ghost cv = old(self)@;
        proof {
            lemma_neighbor_table(side);
            lemma_color_index(side);
        }
        let order = side.neighbor_order();
        let n0 = order[0];
        let n1 = order[1];
        let n2 = order[2];
        let n3 = order[3];
        proof {
            lemma_color_index(n0);
            lemma_color_index(n1);
            lemma_color_index(n2);
            lemma_color_index(n3);
        }
        let r0 = self.side(n0).get_row(side);
        let r1 = self.side(n1).get_row(side);
        let r2 = self.side(n2).get_row(side);
        let r3 = self.side(n3).get_row(side);
        let (w0, w1, w2, w3) = match direction {
            RotationDirection::Right => (r3, r0, r1, r2),
            RotationDirection::Left => (r1, r2, r3, r0),
        };
        let s0 = self.side_mut(n0);
        s0.set_row(side, w0);
        proof {
            lemma_with_row_frame(cv[color_index(n0)], side, w0@);
            assert(self.wf());
        }
        let s1 = self.side_mut(n1);
        s1.set_row(side, w1);
        proof {
            lemma_with_row_frame(cv[color_index(n1)], side, w1@);
            assert(self.wf());
        }
        let s2 = self.side_mut(n2);
        s2.set_row(side, w2);
        proof {
            lemma_with_row_frame(cv[color_index(n2)], side, w2@);
            assert(self.wf());
        }
        let s3 = self.side_mut(n3);
        s3.set_row(side, w3);
        proof {
            lemma_with_row_frame(cv[color_index(n3)], side, w3@);
            assert(self.wf());
        }
        let sf = self.side_mut(side);
        sf.rotate(direction);
        proof {
            let o = spec_neighbor_order(side);
            let j = spec_jump_offset(direction);
            assert(self@[color_index(side)] == spun(cv[color_index(side)], direction));
            assert(self@[color_index(n0)] == with_row(cv[color_index(n0)], side, w0@));
            assert(self@[color_index(n1)] == with_row(cv[color_index(n1)], side, w1@));
            assert(self@[color_index(n2)] == with_row(cv[color_index(n2)], side, w2@));
            assert(self@[color_index(n3)] == with_row(cv[color_index(n3)], side, w3@));
            assert(w0@ == row_of(cv[color_index(o[(0 + j) % 4])], side));
            assert(w1@ == row_of(cv[color_index(o[(1 + j) % 4])], side));
            assert(w2@ == row_of(cv[color_index(o[(2 + j) % 4])], side));
            assert(w3@ == row_of(cv[color_index(o[(3 + j) % 4])], side));
            assert forall|p: int| 0 <= p < 4 implies self@[color_index(o[p])] == with_row(
                cv[color_index(o[p])],
                side,
                row_of(cv[color_index(o[(p + j) % 4])], side),
            ) by {
                // split on p so each case matches one of the four
                // pointwise facts above
                if p == 0 {
                } else if p == 1 {
                } else if p == 2 {
                } else {
                    assert(p == 3);
                }
            }
            assert forall|c: Color| c != side && !is_adjacent(side, c) implies self@[color_index(
                c,
            )] == cv[color_index(c)] by {
                lemma_color_index(c);
            }
            lemma_turn_assembled(cv, self@, side, direction);
            assert(self.wf());
        }
    }

    /// The canonical unfolded-cross text rendering: the top face's three
    /// lines, a blank line, the four side faces' lines concatenated with a
    /// four-space separator in the bottom face's neighbor order, a blank
    /// line, then the bottom face's three lines.
    #[verifier::spinoff_prover]
    pub fn text(&self) -> (r: String)
        requires
            self.wf(),
        ensures
            r@ == cube_text(self@),
    {
        proof {
            reveal_strlit("\n");
            assert("\n"@ =~= nl());
        }
        let mut out = String::new();
        let w = self.side(Color::White).string_array();
        out.append(w[0].as_str());
        proof {
            assert(out@ =~= side_lines(self@[color_index(Color::White)])[0]);
        }
        out.append("\n");
        out.append(w[1].as_str());
        out.append("\n");
        out.append(w[2].as_str());
        out.append("\n");
        out.append("\n");
        let order = Color::Yellow.neighbor_order();
        let a = self.side(order[0]).string_array();
        let b = self.side(order[1]).string_array();
        let c = self.side(order[2]).string_array();
        let d = self.side(order[3]).string_array();
        let m0 = band_row(&a[0], &b[0], &c[0], &d[0]);
        let m1 = band_row(&a[1], &b[1], &c[1], &d[1]);
        let m2 = band_row(&a[2], &b[2], &c[2], &d[2]);
        proof {
            assert(m0@ == middle_line(self@, 0));
            assert(m1@ == middle_line(self@, 1));
            assert(m2@ == middle_line(self@, 2));
        }
        out.append(m0.as_str());
        out.append("\n");
        out.append(m1.as_str());
        out.append("\n");
        out.append(m2.as_str());
        out.append("\n");
        out.append("\n");
        let y = self.side(Color::Yellow).string_array();
        out.append(y[0].as_str());
        out.append("\n");
        out.append(y[1].as_str());
        out.append("\n");
        out.append(y[2].as_str());
        out.append("\n");
        proof {
            assert(out@ == cube_text(self@));
        }
        out
    }
}

/// Renders one line of the middle band: the four side faces' lines for one
/// row, each followed by the four-space separator.
fn band_row(a: &String, b: &String, c: &String, d: &String) -> (r: String)
    ensures
        r@ == a@ + gap() + b@ + gap() + c@ + gap() + d@ + gap(),
{
    proof {
        reveal_strlit("    ");
        assert("    "@ =~= gap());
    }
    let mut s = String::new();
    s.append(a.as_str());
    proof {
        assert(s@ =~= a@);
    }
    s.append("    ");
    s.append(b.as_str());
    s.append("    ");
    s.append(c.as_str());
    s.append("    ");
    s.append(d.as_str());
    s.append("    ");
    s
}

} // verus!
