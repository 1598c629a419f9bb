use vstd::prelude::*;

use crossterm::event::{KeyModifiers, MouseButton, MouseEvent, MouseEventKind};

use crate::grid::Grid;

verus! {

/// crossterm's mouse buttons; plain data.
#[verifier::external_type_specification]
pub struct ExMouseButton(MouseButton);

/// crossterm's kinds of mouse event; plain data.
#[verifier::external_type_specification]
pub struct ExMouseEventKind(MouseEventKind);

/// crossterm's modifier keys, carried along and never read here.
#[verifier::external_type_specification]
#[verifier::external_body]
pub struct ExKeyModifiers(KeyModifiers);

/// crossterm's mouse event: a kind, a terminal position and the modifiers.
#[verifier::external_type_specification]
pub struct ExMouseEvent(MouseEvent);

/// The grid cell under terminal `column` and `row`, if any: a cell is two
/// columns wide, so the column is halved and the row kept.
pub open spec fn click_target(width: nat, height: nat, column: nat, row: nat) -> Option<(usize, usize)> {
    let x = column / 2;
    if x < width && row < height {
        Some((x as usize, row as usize))
    } else {
        None
    }
}

/// Maps a terminal position to the grid cell under it; `None` when the
/// position is past the grid's right or bottom edge.
pub fn map_click(grid: &Grid, column: u16, row: u16) -> (r: Option<(usize, usize)>)
    ensures
        r == click_target(grid@.width, grid@.height, column as nat, row as nat),
{
    let x = (column / 2) as usize;
    let y = row as usize;
    if x >= grid.width() || y >= grid.height() {
        None
    } else {
        Some((x, y))
    }
}

fn same_button(a: MouseButton, b: MouseButton) -> (r: bool)
    ensures
        r == (a == b),
{
    match (a, b) {
        (MouseButton::Left, MouseButton::Left) => true,
        (MouseButton::Right, MouseButton::Right) => true,
        (MouseButton::Middle, MouseButton::Middle) => true,
        _ => false,
    }
}

/// The grid cell pressed with `button` by `event`; `None` for any other
/// event or a press outside the grid.
pub fn mouse_click(grid: &Grid, event: &MouseEvent, button: MouseButton) -> (r: Option<(usize, usize)>)
    ensures
        r == if event.kind == MouseEventKind::Down(button) {
            click_target(grid@.width, grid@.height, event.column as nat, event.row as nat)
        } else {
            None
        },
{
    match event.kind {
        MouseEventKind::Down(b) => {
            if same_button(b, button) {
                map_click(grid, event.column, event.row)
            } else {
                None
            }
        },
        _ => None,
    }
}

/// The grid cell pressed or dragged over with `button` by `event`; `None`
/// for any other event or a position outside the grid.
pub fn mouse_click_or_drag(grid: &Grid, event: &MouseEvent, button: MouseButton) -> (r: Option<
    (usize, usize),
>)
    ensures
        r == if event.kind == MouseEventKind::Down(button) || event.kind == MouseEventKind::Drag(
            button,
        ) {
            click_target(grid@.width, grid@.height, event.column as nat, event.row as nat)
        } else {
            None
        },
{
    match event.kind {
        MouseEventKind::Down(b) | MouseEventKind::Drag(b) => {
            if same_button(b, button) {
                map_click(grid, event.column, event.row)
            } else {
                None
            }
        },
        _ => None,
    }
}

} // verus!
