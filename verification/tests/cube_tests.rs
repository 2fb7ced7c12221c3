use rubik::color::Color;
use rubik::cube::Cube;
use rubik::util::RotationDirection;

const COLORS: [Color; 6] = [
    Color::White,
    Color::Yellow,
    Color::Red,
    Color::Orange,
    Color::Blue,
    Color::Green,
];

const DIRECTIONS: [RotationDirection; 2] = [RotationDirection::Right, RotationDirection::Left];

/// A full observable snapshot of the cube: per face its identity, its
/// normalized ring, and its rotation offset. Together these determine the
/// whole state.
fn snapshot(cube: &Cube) -> Vec<(Color, [Color; 8], usize)> {
    COLORS
        .iter()
        .map(|&c| {
            let s = cube.side(c);
            (s.color(), s.normalized_tiles(), s.rotation_offset())
        })
        .collect()
}

/// Applies a fixed little scramble so tests do not only exercise the
/// solved state.
fn scrambled() -> Cube {
    let mut cube = Cube::new();
    cube.rotate(Color::Blue, RotationDirection::Right);
    cube.rotate(Color::White, RotationDirection::Right);
    cube.rotate(Color::Red, RotationDirection::Left);
    cube.rotate(Color::Green, RotationDirection::Right);
    cube
}

#[test]
fn new_cube_is_solved() {
    let cube = Cube::new();
    for &c in COLORS.iter() {
        let side = cube.side(c);
        assert_eq!(side.color(), c);
        assert_eq!(side.normalized_tiles(), [c; 8]);
        assert_eq!(side.rotation_offset(), 0);
        for n in c.neighbor_order() {
            assert_eq!(side.get_row(n), [c; 3]);
        }
    }
}

#[test]
fn four_turns_restore_state() {
    for &face in COLORS.iter() {
        for &dir in DIRECTIONS.iter() {
            let mut cube = scrambled();
            let before = snapshot(&cube);
            for _ in 0..4 {
                cube.rotate(face, dir);
            }
            assert_eq!(snapshot(&cube), before);
        }
    }
}

#[test]
fn right_then_left_restores_state() {
    for &face in COLORS.iter() {
        let mut cube = scrambled();
        let before = snapshot(&cube);
        cube.rotate(face, RotationDirection::Right);
        cube.rotate(face, RotationDirection::Left);
        assert_eq!(snapshot(&cube), before);

        let mut cube = scrambled();
        let before = snapshot(&cube);
        cube.rotate(face, RotationDirection::Left);
        cube.rotate(face, RotationDirection::Right);
        assert_eq!(snapshot(&cube), before);
    }
}

#[test]
fn opposite_face_is_never_touched() {
    let opposites = [
        (Color::White, Color::Yellow),
        (Color::Yellow, Color::White),
        (Color::Red, Color::Orange),
        (Color::Orange, Color::Red),
        (Color::Blue, Color::Green),
        (Color::Green, Color::Blue),
    ];
    for &(face, opp) in opposites.iter() {
        for &dir in DIRECTIONS.iter() {
            let mut cube = scrambled();
            let before = (
                cube.side(opp).normalized_tiles(),
                cube.side(opp).rotation_offset(),
            );
            cube.rotate(face, dir);
            let after = (
                cube.side(opp).normalized_tiles(),
                cube.side(opp).rotation_offset(),
            );
            assert_eq!(after, before);
        }
    }
}

#[test]
fn face_identities_never_change() {
    let mut cube = scrambled();
    for &face in COLORS.iter() {
        for &dir in DIRECTIONS.iter() {
            cube.rotate(face, dir);
        }
    }
    for &c in COLORS.iter() {
        assert_eq!(cube.side(c).color(), c);
    }
}

#[test]
fn white_right_turn_permutes_neighbor_rows() {
    let mut cube = Cube::new();
    assert_eq!(
        Color::White.neighbor_order(),
        [Color::Orange, Color::Blue, Color::Red, Color::Green]
    );
    cube.side_mut(Color::Orange)
        .set_row(Color::White, [Color::Yellow; 3]);
    cube.side_mut(Color::Blue)
        .set_row(Color::White, [Color::Red; 3]);
    cube.side_mut(Color::Red)
        .set_row(Color::White, [Color::Green; 3]);
    cube.side_mut(Color::Green)
        .set_row(Color::White, [Color::Orange; 3]);
    cube.rotate(Color::White, RotationDirection::Right);
    assert_eq!(cube.side(Color::Orange).get_row(Color::White), [Color::Orange; 3]);
    assert_eq!(cube.side(Color::Blue).get_row(Color::White), [Color::Yellow; 3]);
    assert_eq!(cube.side(Color::Red).get_row(Color::White), [Color::Red; 3]);
    assert_eq!(cube.side(Color::Green).get_row(Color::White), [Color::Green; 3]);
}

#[test]
fn left_turn_permutes_rows_the_other_way() {
    let mut cube = Cube::new();
    cube.side_mut(Color::Orange)
        .set_row(Color::White, [Color::Yellow; 3]);
    cube.side_mut(Color::Blue)
        .set_row(Color::White, [Color::Red; 3]);
    cube.side_mut(Color::Red)
        .set_row(Color::White, [Color::Green; 3]);
    cube.side_mut(Color::Green)
        .set_row(Color::White, [Color::Orange; 3]);
    cube.rotate(Color::White, RotationDirection::Left);
    assert_eq!(cube.side(Color::Orange).get_row(Color::White), [Color::Red; 3]);
    assert_eq!(cube.side(Color::Blue).get_row(Color::White), [Color::Green; 3]);
    assert_eq!(cube.side(Color::Red).get_row(Color::White), [Color::Orange; 3]);
    assert_eq!(cube.side(Color::Green).get_row(Color::White), [Color::Yellow; 3]);
}

#[test]
fn turned_face_spins_its_own_ring() {
    let mut cube = Cube::new();
    cube.rotate(Color::White, RotationDirection::Right);
    assert_eq!(cube.side(Color::White).rotation_offset(), 6);
    cube.rotate(Color::White, RotationDirection::Left);
    assert_eq!(cube.side(Color::White).rotation_offset(), 0);
    cube.rotate(Color::White, RotationDirection::Left);
    assert_eq!(cube.side(Color::White).rotation_offset(), 2);
}

#[test]
fn solved_cube_text_shows_uniform_faces() {
    let cube = Cube::new();
    let text = cube.text();
    let expected = "W  W  W\n\
                    W  W  W\n\
                    W  W  W\n\
                    \n\
                    R  R  R    B  B  B    O  O  O    G  G  G    \n\
                    R  R  R    B  B  B    O  O  O    G  G  G    \n\
                    R  R  R    B  B  B    O  O  O    G  G  G    \n\
                    \n\
                    Y  Y  Y\n\
                    Y  Y  Y\n\
                    Y  Y  Y\n";
    assert_eq!(text, expected);
}

#[test]
fn solved_cube_text_lines_are_uniform_triples() {
    let cube = Cube::new();
    let text = cube.text();
    let lines: Vec<&str> = text.split('\n').collect();
    assert_eq!(lines.len(), 12);
    assert_eq!(lines[3], "");
    assert_eq!(lines[7], "");
    assert_eq!(lines[11], "");
    for i in 0..3 {
        assert_eq!(lines[i], "W  W  W");
        assert_eq!(lines[8 + i], "Y  Y  Y");
        let band: Vec<&str> = lines[4 + i].split("    ").collect();
        assert_eq!(band, ["R  R  R", "B  B  B", "O  O  O", "G  G  G", ""]);
    }
}
