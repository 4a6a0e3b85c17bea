//! The shape catalogue: the seven piece kinds, their colours and their
//! rotation encodings.

use crate::grid::Color;
use vstd::prelude::*;

verus! {

/// A rotation encoding: sixteen bits read as a four-by-four occupancy mask,
/// row by row, the most significant bit being row 0, column 0.
pub type Rotation = u16;

/// A decoded mask: four rows of four cells, each cell 0 or 1.
pub type ShapeVec = Vec<Vec<Rotation>>;

/// The seven piece kinds.
#[derive(Clone, Copy, Debug, PartialEq, Eq, Structural)]
pub enum Shape {
    O,
    I,
    S,
    Z,
    J,
    L,
    T,
}

/// Bit `i` of a mask, counted from the most significant one: cell
/// `(i / 4, i % 4)`.
pub open spec fn mask_bit(rotation: Rotation, i: int) -> Rotation {
    (rotation >> ((15 - i) as u16)) & 1
}

/// Whether the mask occupies the cell in row `r`, column `c` of its
/// four-by-four frame. Nothing outside the frame is occupied.
pub open spec fn cell_filled(rotation: Rotation, r: int, c: int) -> bool {
    0 <= r < 4 && 0 <= c < 4 && mask_bit(rotation, 4 * r + c) != 0
}

/// The mask as a matrix: row `r`, column `c` holds bit `4 * r + c`.
pub open spec fn decode(rotation: Rotation) -> Seq<Seq<Rotation>> {
    Seq::new(4, |r: int| Seq::new(4, |c: int| mask_bit(rotation, 4 * r + c)))
}

/// How many cells the mask occupies.
pub open spec fn cell_count(rotation: Rotation) -> int {
    mask_bit(rotation, 0) + mask_bit(rotation, 1) + mask_bit(rotation, 2) + mask_bit(rotation, 3)
        + mask_bit(rotation, 4) + mask_bit(rotation, 5) + mask_bit(rotation, 6) + mask_bit(
        rotation,
        7,
    ) + mask_bit(rotation, 8) + mask_bit(rotation, 9) + mask_bit(rotation, 10) + mask_bit(
        rotation,
        11,
    ) + mask_bit(rotation, 12) + mask_bit(rotation, 13) + mask_bit(rotation, 14) + mask_bit(
        rotation,
        15,
    )
}

impl Shape {
    /// The display colour of the kind.
    pub open spec fn color(self) -> Color {
        match self {
            Shape::O => Color::Blue,
            Shape::I => Color::Yellow,
            Shape::S => Color::Cyan,
            Shape::Z => Color::White,
            Shape::J => Color::Magenta,
            Shape::L => Color::Red,
            Shape::T => Color::Green,
        }
    }

    /// The rotation encodings of the kind, in turning order.
    pub open spec fn rotations(self) -> Seq<Rotation> {
        match self {
            Shape::O => seq![51u16],
            Shape::I => seq![8738u16, 240u16],
            Shape::S => seq![54u16, 561u16],
            Shape::Z => seq![99u16, 306u16],
            Shape::J => seq![275u16, 71u16, 802u16, 113u16],
            Shape::L => seq![547u16, 116u16, 785u16, 23u16],
            Shape::T => seq![114u16, 305u16, 39u16, 562u16],
        }
    }

    /// The kind that a draw from `0..=6` stands for.
    pub open spec fn of_index(n: int) -> Shape {
        if n == 0 {
            Shape::O
        } else if n == 1 {
            Shape::I
        } else if n == 2 {
            Shape::S
        } else if n == 3 {
            Shape::Z
        } else if n == 4 {
            Shape::J
        } else if n == 5 {
            Shape::L
        } else {
            Shape::T
        }
    }

    /// The display colour of the kind.
    pub fn get_color(&self) -> (color: Color)
        ensures
            color == self.color(),
    {
        match self {
            Shape::O => Color::Blue,
            Shape::I => Color::Yellow,
            Shape::S => Color::Cyan,
            Shape::Z => Color::White,
            Shape::J => Color::Magenta,
            Shape::L => Color::Red,
            Shape::T => Color::Green,
        }
    }

    /// The rotation encodings of the kind, in turning order. The list is
    /// never empty.
    pub fn get_possible_rotations(&self) -> (rotations: Vec<Rotation>)
        ensures
            rotations@ == self.rotations(),
            rotations@.len() > 0,
    {
        match self {
            Shape::O => vec![51],
            Shape::I => vec![8738, 240],
            Shape::S => vec![54, 561],
            Shape::Z => vec![99, 306],
            Shape::J => vec![275, 71, 802, 113],
            Shape::L => vec![547, 116, 785, 23],
            Shape::T => vec![114, 305, 39, 562],
        }
    }

    /// Decodes a mask into its four rows of four cells. The result depends on
    /// the mask alone, not on the kind.
    pub fn to_vec(&self, rotation: Rotation) -> (cells: ShapeVec)
        ensures
            cells.deep_view() == decode(rotation),
            cells.len() == 4,
            forall|r: int| 0 <= r < 4 ==> (#[trigger] cells[r]).len() == 4,
            forall|r: int, c: int|
                0 <= r < 4 && 0 <= c < 4 ==> #[trigger] cells[r][c] == mask_bit(rotation, 4 * r + c)
                    && cells[r][c] <= 1,
    {
        let mut cells: ShapeVec = Vec::new();
        let mut r: u16 = 0;
        while r < 4
            invariant
                r <= 4,
                cells.len() == r,
                forall|i: int| 0 <= i < r ==> (#[trigger] cells[i]).len() == 4,
                forall|i: int, j: int|
                    0 <= i < r && 0 <= j < 4 ==> #[trigger] cells[i][j] == mask_bit(
                        rotation,
                        4 * i + j,
                    ),
            decreases 4 - r,
        {
            let mut row: Vec<Rotation> = Vec::new();
            let mut c: u16 = 0;
            while c < 4
                invariant
                    r < 4,
                    c <= 4,
                    row.len() == c,
                    forall|j: int|
                        0 <= j < c ==> #[trigger] row[j] == mask_bit(rotation, 4 * r + j),
                decreases 4 - c,
            {
                row.push((rotation >> (15 - (4 * r + c))) & 1);
                c += 1;
            }
            cells.push(row);
            r += 1;
        }
        proof {
            assert(cells.deep_view() =~~= decode(rotation));
            assert forall|r: int, c: int| 0 <= r < 4 && 0 <= c < 4 implies #[trigger] cells[r][c]
                <= 1 by {
                lemma_bit_is_binary(rotation, 4 * r + c);
            }
        }
        cells
    }

    /// Maps a draw from `0..=6` to a kind; any other number gives `T`.
    pub fn from_index(n: i32) -> (shape: Shape)
        ensures
            shape == Shape::of_index(n as int),
    {
        match n {
            0 => Shape::O,
            1 => Shape::I,
            2 => Shape::S,
            3 => Shape::Z,
            4 => Shape::J,
            5 => Shape::L,
            _ => Shape::T,
        }
    }

    /// Every kind has at least one rotation: one for `O`, two for `I`, `S`
    /// and `Z`, four for `J`, `L` and `T`.
    pub proof fn lemma_rotation_counts(self)
        ensures
            self.rotations().len() == match self {
                Shape::O => 1nat,
                Shape::I | Shape::S | Shape::Z => 2nat,
                Shape::J | Shape::L | Shape::T => 4nat,
            },
            self.rotations().len() > 0,
    {
    }

    /// No two kinds have the same colour.
    pub proof fn lemma_colors_distinct(self, other: Shape)
        requires
            self != other,
        ensures
            self.color() != other.color(),
    {
    }

    /// No encoding occurs twice in a kind's list.
    pub proof fn lemma_rotations_distinct(self)
        ensures
            forall|i: int, j: int|
                0 <= i < j < self.rotations().len() ==> self.rotations()[i] != self.rotations()[j],
    {
    }

    /// Every listed encoding occupies exactly four cells.
    pub proof fn lemma_four_cells(self, rotation: Rotation)
        requires
            self.rotations().contains(rotation),
        ensures
            cell_count(rotation) == 4,
    {
        assert(cell_count(51) == 4 && cell_count(8738) == 4 && cell_count(240) == 4 && cell_count(54)
            == 4 && cell_count(561) == 4 && cell_count(99) == 4 && cell_count(306) == 4
            && cell_count(275) == 4 && cell_count(71) == 4 && cell_count(802) == 4 && cell_count(
            113,
        ) == 4 && cell_count(547) == 4 && cell_count(116) == 4 && cell_count(785) == 4
            && cell_count(23) == 4 && cell_count(114) == 4 && cell_count(305) == 4 && cell_count(39)
            == 4 && cell_count(562) == 4) by (bit_vector);
    }

    /// Every listed encoding occupies at least one cell of its frame.
    pub proof fn lemma_some_cell(self, rotation: Rotation)
        requires
            self.rotations().contains(rotation),
        ensures
            exists|r: int, c: int| cell_filled(rotation, r, c),
    {
        self.lemma_four_cells(rotation);
        lemma_counted_cell(rotation);
    }
}

/// Every cell of a decoded mask is 0 or 1.
pub proof fn lemma_bit_is_binary(rotation: Rotation, i: int)
    requires
        0 <= i < 16,
    ensures
        mask_bit(rotation, i) == 0 || mask_bit(rotation, i) == 1,
{
    let k: u16 = (15 - i) as u16;
    assert(((rotation >> k) & 1) == 0 || ((rotation >> k) & 1) == 1) by (bit_vector);
}

/// A mask that counts at least one cell occupies one.
pub proof fn lemma_counted_cell(rotation: Rotation)
    requires
        cell_count(rotation) > 0,
    ensures
        exists|r: int, c: int| cell_filled(rotation, r, c),
{
    let i = choose|i: int| 0 <= i < 16 && mask_bit(rotation, i) != 0;
    assert(cell_filled(rotation, i / 4, i % 4));
}

} // verus!
