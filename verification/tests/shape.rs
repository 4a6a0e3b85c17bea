use tetris_core::{Color, Rotation, Shape, ShapeVec};

const ALL_SHAPES: [Shape; 7] = [
    Shape::O,
    Shape::I,
    Shape::S,
    Shape::Z,
    Shape::J,
    Shape::L,
    Shape::T,
];

fn check_to_vec(shape: Shape, expected: Vec<ShapeVec>) {
    let possible_rotations = shape.get_possible_rotations();
    assert_eq!(expected.len(), possible_rotations.len());
    for (exp, possible_rotation) in expected.iter().zip(possible_rotations) {
        assert_eq!(shape.to_vec(possible_rotation), *exp);
    }
}

#[test]
fn get_color() {
    assert_eq!(Shape::O.get_color(), Color::Blue);
    assert_eq!(Shape::I.get_color(), Color::Yellow);
    assert_eq!(Shape::S.get_color(), Color::Cyan);
    assert_eq!(Shape::Z.get_color(), Color::White);
    assert_eq!(Shape::J.get_color(), Color::Magenta);
    assert_eq!(Shape::L.get_color(), Color::Red);
    assert_eq!(Shape::T.get_color(), Color::Green);
}

#[test]
fn colors_are_distinct() {
    for (i, a) in ALL_SHAPES.iter().enumerate() {
        for b in ALL_SHAPES.iter().skip(i + 1) {
            assert_ne!(a.get_color(), b.get_color());
        }
    }
}

#[test]
fn get_possible_rotations() {
    assert_eq!(Shape::O.get_possible_rotations(), vec![51]);
    assert_eq!(Shape::I.get_possible_rotations(), vec![8738, 240]);
    assert_eq!(Shape::S.get_possible_rotations(), vec![54, 561]);
    assert_eq!(Shape::Z.get_possible_rotations(), vec![99, 306]);
    assert_eq!(Shape::J.get_possible_rotations(), vec![275, 71, 802, 113]);
    assert_eq!(Shape::L.get_possible_rotations(), vec![547, 116, 785, 23]);
    assert_eq!(Shape::T.get_possible_rotations(), vec![114, 305, 39, 562]);
}

#[test]
fn rotation_lists_are_not_empty() {
    for shape in ALL_SHAPES {
        assert!(!shape.get_possible_rotations().is_empty());
    }
}

#[test]
fn rotation_lists_hold_no_encoding_twice() {
    for shape in ALL_SHAPES {
        let rotations = shape.get_possible_rotations();
        for i in 0..rotations.len() {
            for j in i + 1..rotations.len() {
                assert_ne!(rotations[i], rotations[j]);
            }
        }
    }
}

#[test]
fn to_vec_o() {
    check_to_vec(
        Shape::O,
        vec![vec![
            vec![0, 0, 0, 0],
            vec![0, 0, 0, 0],
            vec![0, 0, 1, 1],
            vec![0, 0, 1, 1],
        ]],
    );
}

#[test]
fn to_vec_i() {
    check_to_vec(
        Shape::I,
        vec![
            vec![
                vec![0, 0, 1, 0],
                vec![0, 0, 1, 0],
                vec![0, 0, 1, 0],
                vec![0, 0, 1, 0],
            ],
            vec![
                vec![0, 0, 0, 0],
                vec![0, 0, 0, 0],
                vec![1, 1, 1, 1],
                vec![0, 0, 0, 0],
            ],
        ],
    );
}

#[test]
fn to_vec_s() {
    check_to_vec(
        Shape::S,
        vec![
            vec![
                vec![0, 0, 0, 0],
                vec![0, 0, 0, 0],
                vec![0, 0, 1, 1],
                vec![0, 1, 1, 0],
            ],
            vec![
                vec![0, 0, 0, 0],
                vec![0, 0, 1, 0],
                vec![0, 0, 1, 1],
                vec![0, 0, 0, 1],
            ],
        ],
    );
}

#[test]
fn to_vec_z() {
    check_to_vec(
        Shape::Z,
        vec![
            vec![
                vec![0, 0, 0, 0],
                vec![0, 0, 0, 0],
                vec![0, 1, 1, 0],
                vec![0, 0, 1, 1],
            ],
            vec![
                vec![0, 0, 0, 0],
                vec![0, 0, 0, 1],
                vec![0, 0, 1, 1],
                vec![0, 0, 1, 0],
            ],
        ],
    );
}

#[test]
fn to_vec_j() {
    check_to_vec(
        Shape::J,
        vec![
            vec![
                vec![0, 0, 0, 0],
                vec![0, 0, 0, 1],
                vec![0, 0, 0, 1],
                vec![0, 0, 1, 1],
            ],
            vec![
                vec![0, 0, 0, 0],
                vec![0, 0, 0, 0],
                vec![0, 1, 0, 0],
                vec![0, 1, 1, 1],
            ],
            vec![
                vec![0, 0, 0, 0],
                vec![0, 0, 1, 1],
                vec![0, 0, 1, 0],
                vec![0, 0, 1, 0],
            ],
            vec![
                vec![0, 0, 0, 0],
                vec![0, 0, 0, 0],
                vec![0, 1, 1, 1],
                vec![0, 0, 0, 1],
            ],
        ],
    );
}

#[test]
fn to_vec_l() {
    check_to_vec(
        Shape::L,
        vec![
            vec![
                vec![0, 0, 0, 0],
                vec![0, 0, 1, 0],
                vec![0, 0, 1, 0],
                vec![0, 0, 1, 1],
            ],
            vec![
                vec![0, 0, 0, 0],
                vec![0, 0, 0, 0],
                vec![0, 1, 1, 1],
                vec![0, 1, 0, 0],
            ],
            vec![
                vec![0, 0, 0, 0],
                vec![0, 0, 1, 1],
                vec![0, 0, 0, 1],
                vec![0, 0, 0, 1],
            ],
            vec![
                vec![0, 0, 0, 0],
                vec![0, 0, 0, 0],
                vec![0, 0, 0, 1],
                vec![0, 1, 1, 1],
            ],
        ],
    );
}

#[test]
fn to_vec_t() {
    check_to_vec(
        Shape::T,
        vec![
            vec![
                vec![0, 0, 0, 0],
                vec![0, 0, 0, 0],
                vec![0, 1, 1, 1],
                vec![0, 0, 1, 0],
            ],
            vec![
                vec![0, 0, 0, 0],
                vec![0, 0, 0, 1],
                vec![0, 0, 1, 1],
                vec![0, 0, 0, 1],
            ],
            vec![
                vec![0, 0, 0, 0],
                vec![0, 0, 0, 0],
                vec![0, 0, 1, 0],
                vec![0, 1, 1, 1],
            ],
            vec![
                vec![0, 0, 0, 0],
                vec![0, 0, 1, 0],
                vec![0, 0, 1, 1],
                vec![0, 0, 1, 0],
            ],
        ],
    );
}

#[test]
fn to_vec_reads_the_most_significant_bit_first() {
    let top_left: Rotation = 0x8000;
    let cells = Shape::O.to_vec(top_left);
    assert_eq!(cells[0], vec![1, 0, 0, 0]);
    assert_eq!(cells[1], vec![0, 0, 0, 0]);
    assert_eq!(cells[2], vec![0, 0, 0, 0]);
    assert_eq!(cells[3], vec![0, 0, 0, 0]);
    let bottom_right: Rotation = 0x0001;
    assert_eq!(Shape::O.to_vec(bottom_right)[3], vec![0, 0, 0, 1]);
    // 0x1248 has one bit in each row: columns 3, 2, 1 and 0.
    assert_eq!(
        Shape::T.to_vec(0x1248),
        vec![
            vec![0, 0, 0, 1],
            vec![0, 0, 1, 0],
            vec![0, 1, 0, 0],
            vec![1, 0, 0, 0],
        ]
    );
}

#[test]
fn to_vec_does_not_depend_on_the_shape() {
    for rotation in [0u16, 1, 51, 240, 8738, 0xffff, 0x8000, 12345] {
        let cells = Shape::O.to_vec(rotation);
        for shape in ALL_SHAPES {
            assert_eq!(shape.to_vec(rotation), cells);
        }
    }
}

#[test]
fn to_vec_gives_four_rows_of_four_binary_cells() {
    for rotation in [0u16, 1, 2, 51, 240, 8738, 0x7fff, 0x8000, 0xffff, 0xa5a5, 12345] {
        let cells = Shape::I.to_vec(rotation);
        assert_eq!(cells.len(), 4);
        let mut value: u32 = 0;
        for row in &cells {
            assert_eq!(row.len(), 4);
            for cell in row {
                assert!(*cell == 0 || *cell == 1);
                value = value * 2 + u32::from(*cell);
            }
        }
        assert_eq!(value, u32::from(rotation));
    }
}

#[test]
fn every_listed_encoding_has_four_cells() {
    for shape in ALL_SHAPES {
        for rotation in shape.get_possible_rotations() {
            let cells = shape.to_vec(rotation);
            let count: u16 = cells.iter().map(|row| row.iter().sum::<u16>()).sum();
            assert_eq!(count, 4);
        }
    }
}

#[test]
fn from_index_maps_draws_to_shapes() {
    assert_eq!(Shape::from_index(0), Shape::O);
    assert_eq!(Shape::from_index(1), Shape::I);
    assert_eq!(Shape::from_index(2), Shape::S);
    assert_eq!(Shape::from_index(3), Shape::Z);
    assert_eq!(Shape::from_index(4), Shape::J);
    assert_eq!(Shape::from_index(5), Shape::L);
    assert_eq!(Shape::from_index(6), Shape::T);
    assert_eq!(Shape::from_index(7), Shape::T);
    assert_eq!(Shape::from_index(-1), Shape::T);
}
