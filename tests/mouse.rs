use crossterm::event::{KeyModifiers, MouseButton, MouseEvent, MouseEventKind};

use tui_canvas::{map_click, mouse_click, mouse_click_or_drag, Grid};

fn event(kind: MouseEventKind, column: u16, row: u16) -> MouseEvent {
    MouseEvent { kind, column, row, modifiers: KeyModifiers::NONE }
}

#[test]
fn click_maps_to_halved_column() {
    let grid = Grid::new(40, 20);
    assert_eq!(map_click(&grid, 10, 5), Some((5, 5)));
    assert_eq!(map_click(&grid, 11, 5), Some((5, 5)));
    assert_eq!(map_click(&grid, 79, 19), Some((39, 19)));
}

#[test]
fn click_past_either_edge_is_no_cell() {
    let grid = Grid::new(40, 20);
    assert_eq!(map_click(&grid, 100, 5), None);
    assert_eq!(map_click(&grid, 80, 5), None);
    assert_eq!(map_click(&grid, 10, 20), None);
    assert_eq!(map_click(&grid, 100, 50), None);
}

#[test]
fn press_of_the_button_is_a_click() {
    let grid = Grid::new(40, 20);
    let down = event(MouseEventKind::Down(MouseButton::Left), 10, 5);
    assert_eq!(mouse_click(&grid, &down, MouseButton::Left), Some((5, 5)));
    assert_eq!(mouse_click(&grid, &down, MouseButton::Right), None);
    let outside = event(MouseEventKind::Down(MouseButton::Left), 100, 5);
    assert_eq!(mouse_click(&grid, &outside, MouseButton::Left), None);
}

#[test]
fn drag_counts_only_when_asked() {
    let grid = Grid::new(40, 20);
    let drag = event(MouseEventKind::Drag(MouseButton::Right), 7, 2);
    assert_eq!(mouse_click(&grid, &drag, MouseButton::Right), None);
    assert_eq!(mouse_click_or_drag(&grid, &drag, MouseButton::Right), Some((3, 2)));
    assert_eq!(mouse_click_or_drag(&grid, &drag, MouseButton::Left), None);
    let down = event(MouseEventKind::Down(MouseButton::Right), 7, 2);
    assert_eq!(mouse_click_or_drag(&grid, &down, MouseButton::Right), Some((3, 2)));
}

#[test]
fn other_mouse_events_are_no_click() {
    let grid = Grid::new(40, 20);
    for kind in [
        MouseEventKind::Up(MouseButton::Left),
        MouseEventKind::Moved,
        MouseEventKind::ScrollDown,
        MouseEventKind::ScrollUp,
    ] {
        let e = event(kind, 4, 4);
        assert_eq!(mouse_click(&grid, &e, MouseButton::Left), None);
        assert_eq!(mouse_click_or_drag(&grid, &e, MouseButton::Left), None);
    }
}
