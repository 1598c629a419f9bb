use vstd::prelude::*;
use vstd::string::*;

use crossterm::style::Color;

verus! {

/// crossterm's palette of terminal colors; its variants are plain data.
#[verifier::external_type_specification]
pub struct ExColor(Color);

/// What a cell holds: its background color and the two characters printed
/// over it.
pub struct CellView {
    pub color: Color,
    pub value: Seq<char>,
}

/// The view of the blank cell: white, two spaces.
pub open spec fn blank_cell_view() -> CellView {
    CellView { color: Color::White, value: seq![' ', ' '] }
}

/// The content of one grid position. A cell occupies two terminal columns,
/// so its value is always exactly two characters long.
#[derive(Debug, PartialEq, Eq, Hash)]
pub struct Cell {
    color: Color,
    value: String,
}

impl View for Cell {
    type V = CellView;

    closed spec fn view(&self) -> CellView {
        CellView { color: self.color, value: self.value@ }
    }
}

impl Cell {
    #[verifier::type_invariant]
    spec fn two_chars(&self) -> bool {
        self.value@.len() == 2
    }

    /// Builds a cell, or `None` when `value` is not exactly two characters.
    pub fn build(color: Color, value: &str) -> (r: Option<Cell>)
        ensures
            r is Some <==> value@.len() == 2,
            r matches Some(c) ==> c@ == (CellView { color, value: value@ }),
    {
        if value.unicode_len() == 2 {
            Some(Cell { color, value: value.to_owned() })
        } else {
            None
        }
    }

    pub fn color(&self) -> (r: Color)
        ensures
            r == self@.color,
    {
        self.color
    }

    pub fn value(&self) -> (r: &str)
        ensures
            r@ == self@.value,
            r@.len() == 2,
    {
        proof {
            use_type_invariant(self);
        }
        self.value.as_str()
    }
}

impl Clone for Cell {
    fn clone(&self) -> (r: Cell)
        ensures
            r == *self,
    {
        proof {
            use_type_invariant(self);
        }
        Cell { color: self.color, value: self.value.clone() }
    }
}

impl Default for Cell {
    /// The blank cell: a white background under two spaces.
    fn default() -> (r: Cell)
        ensures
            r@ == blank_cell_view(),
    {
        let value = "  ";
        proof {
            reveal_strlit("  ");
        }
        assert(value@ =~= seq![' ', ' ']);
        Cell { color: Color::White, value: value.to_owned() }
    }
}

} // verus!
