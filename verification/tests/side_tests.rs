use rubik::color::Color;
use rubik::side::Side;
use rubik::util::RotationAnimation;
use rubik::util::RotationAxis;
use rubik::util::RotationDirection;

#[test]
fn new_side_is_solved() {
    let s = Side::new(Color::Red);
    assert_eq!(s.color(), Color::Red);
    assert_eq!(s.rotation_offset(), 0);
    assert_eq!(s.normalized_tiles(), [Color::Red; 8]);
}

#[test]
fn set_row_reads_back_and_shares_corners() {
    // White's neighbor order is [Orange, Blue, Red, Green]; the row facing
    // Orange occupies ring slots 0..3, and adjacent rows share a corner
    // slot with it.
    let mut s = Side::new(Color::White);
    s.set_row(Color::Orange, [Color::Red, Color::Green, Color::Blue]);
    assert_eq!(s.get_row(Color::Orange), [Color::Red, Color::Green, Color::Blue]);
    // Blue's row starts at slot 2, which is the corner written with Blue.
    assert_eq!(s.get_row(Color::Blue), [Color::Blue, Color::White, Color::White]);
    // Green's row covers slots 6, 7, 0 and so ends on the corner holding Red.
    assert_eq!(s.get_row(Color::Green), [Color::White, Color::White, Color::Red]);
    // Red's row (slots 4..7) is untouched.
    assert_eq!(s.get_row(Color::Red), [Color::White; 3]);
    assert_eq!(
        s.normalized_tiles(),
        [
            Color::Red,
            Color::Green,
            Color::Blue,
            Color::White,
            Color::White,
            Color::White,
            Color::White,
            Color::White,
        ]
    );
}

#[test]
fn spinning_moves_the_rows_not_the_tiles() {
    let mut s = Side::new(Color::White);
    s.set_row(Color::Orange, [Color::Red; 3]);
    s.rotate(RotationDirection::Right);
    assert_eq!(s.rotation_offset(), 6);
    // The row facing Orange now starts at slot 6: two untouched stickers,
    // then the corner that held Red.
    assert_eq!(s.get_row(Color::Orange), [Color::White, Color::White, Color::Red]);
    s.rotate(RotationDirection::Left);
    assert_eq!(s.rotation_offset(), 0);
    assert_eq!(s.get_row(Color::Orange), [Color::Red; 3]);
}

#[test]
fn normalized_tiles_undo_the_offset() {
    let mut s = Side::new(Color::Blue);
    s.set_row(Color::White, [Color::Green, Color::Orange, Color::Yellow]);
    let before = s.normalized_tiles();
    s.rotate(RotationDirection::Right);
    // The ring is read back relative to the new offset; the underlying
    // tiles have not moved.
    let after = s.normalized_tiles();
    let offset = s.rotation_offset();
    for k in 0..8 {
        assert_eq!(after[k], before[(k + offset) % 8]);
    }
}

#[test]
fn string_array_renders_three_letter_lines() {
    let s = Side::new(Color::Green);
    let lines = s.string_array();
    assert_eq!(lines, ["G  G  G", "G  G  G", "G  G  G"]);

    let mut s = Side::new(Color::White);
    s.set_row(Color::Orange, [Color::Red, Color::Green, Color::Blue]);
    let lines = s.string_array();
    // Top line: the row facing the first neighbor, Orange.
    assert_eq!(lines[0], "R  G  B");
    // Middle line: Green's row middle, the center, Blue's row middle.
    assert_eq!(lines[1], "W  W  W");
    // Bottom line: Red's row reversed.
    assert_eq!(lines[2], "W  W  W");
}

#[test]
fn letters_are_the_face_initials() {
    assert_eq!(Color::White.letter(), 'W');
    assert_eq!(Color::Yellow.letter(), 'Y');
    assert_eq!(Color::Red.letter(), 'R');
    assert_eq!(Color::Orange.letter(), 'O');
    assert_eq!(Color::Blue.letter(), 'B');
    assert_eq!(Color::Green.letter(), 'G');
    assert_eq!(Color::Blue.letter_str(), "B");
}

#[test]
fn neighbor_tables_are_consistent() {
    let colors = [
        Color::White,
        Color::Yellow,
        Color::Red,
        Color::Orange,
        Color::Blue,
        Color::Green,
    ];
    assert_eq!(
        Color::White.neighbor_order(),
        [Color::Orange, Color::Blue, Color::Red, Color::Green]
    );
    assert_eq!(
        Color::Yellow.neighbor_order(),
        [Color::Red, Color::Blue, Color::Orange, Color::Green]
    );
    for &c in colors.iter() {
        let order = c.neighbor_order();
        for (i, &n) in order.iter().enumerate() {
            assert_ne!(n, c);
            assert_eq!(c.neighbor_pos(n), i);
            assert!(n.neighbor_order().contains(&c));
        }
    }
}

#[test]
fn storage_indices_are_distinct() {
    let colors = [
        Color::White,
        Color::Yellow,
        Color::Red,
        Color::Orange,
        Color::Blue,
        Color::Green,
    ];
    let mut seen = [false; 6];
    for &c in colors.iter() {
        let i = c.index();
        assert!(i < 6);
        assert!(!seen[i]);
        seen[i] = true;
    }
}

#[test]
fn default_top_is_first_neighbor() {
    assert_eq!(Color::White.default_top(), Color::Orange);
    assert_eq!(Color::Red.default_top(), Color::White);
}

#[test]
fn rotation_axes_pair_opposite_faces() {
    assert_eq!(Color::White.rotation_axis(), RotationAxis::YAxis);
    assert_eq!(Color::Yellow.rotation_axis(), RotationAxis::YAxis);
    assert_eq!(Color::Red.rotation_axis(), RotationAxis::XAxis);
    assert_eq!(Color::Orange.rotation_axis(), RotationAxis::XAxis);
    assert_eq!(Color::Blue.rotation_axis(), RotationAxis::ZAxis);
    assert_eq!(Color::Green.rotation_axis(), RotationAxis::ZAxis);
}

#[test]
fn jump_offsets_are_complementary() {
    assert_eq!(RotationDirection::Right.jump_offset(), 3);
    assert_eq!(RotationDirection::Left.jump_offset(), 1);
}

#[test]
fn new_animation_starts_at_step_zero() {
    let a = RotationAnimation::new(Color::Blue, RotationDirection::Right);
    assert_eq!(a.side, Color::Blue);
    assert_eq!(a.direction, RotationDirection::Right);
    assert_eq!(a.step, 0);
}
