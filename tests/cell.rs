use crossterm::style::Color;

use tui_canvas::Cell;

#[test]
fn cell_build_works() {
    let cell = Cell::build(Color::White, "  ");

    assert!(cell.is_some())
}

#[test]
fn cell_build_fails() {
    let cell = Cell::build(Color::White, " ");

    assert!(cell.is_none())
}

#[test]
fn default_cell_works() {
    Cell::default();
}

#[test]
fn cell_build_rejects_three_characters() {
    assert!(Cell::build(Color::White, "abc").is_none());
    assert!(Cell::build(Color::White, "").is_none());
}

#[test]
fn cell_build_counts_characters_not_bytes() {
    let cell = Cell::build(Color::Blue, "éé").expect("two characters");
    assert_eq!(cell.value(), "éé");
    assert!(Cell::build(Color::Blue, "é").is_none());
}

#[test]
fn cell_accessors_return_what_was_built() {
    let cell = Cell::build(Color::Rgb { r: 1, g: 2, b: 3 }, "ab").expect("two characters");
    assert_eq!(cell.color(), Color::Rgb { r: 1, g: 2, b: 3 });
    assert_eq!(cell.value(), "ab");
}

#[test]
fn default_cell_is_white_blank() {
    let cell = Cell::default();
    assert_eq!(cell.color(), Color::White);
    assert_eq!(cell.value(), "  ");
    assert_eq!(Cell::build(Color::White, "  "), Some(cell));
}

#[test]
fn cell_clone_is_equal() {
    let cell = Cell::build(Color::Red, "xy").expect("two characters");
    assert_eq!(cell.clone(), cell);
}
