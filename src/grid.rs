use vstd::prelude::*;

use vstd::arithmetic::div_mod::lemma_fundamental_div_mod_converse;

use crate::cell::{Cell, CellView};

verus! {

/// A grid coordinate: `x` is the column and `y` the row, both counted from
/// zero at the top left.
#[derive(Debug, Clone, Copy, PartialEq, Eq, Structural, Hash)]
pub struct Point {
    x: usize,
    y: usize,
}

impl View for Point {
    type V = (nat, nat);

    closed spec fn view(&self) -> (nat, nat) {
        (self.x as nat, self.y as nat)
    }
}

impl Point {
    pub fn new(x: usize, y: usize) -> (r: Point)
        ensures
            r@ == (x as nat, y as nat),
    {
        Point { x, y }
    }
}

/// Why the grid refused an operation.
#[derive(Debug, Clone, Copy, PartialEq, Eq, Structural)]
pub enum GridError {
    /// The coordinates lie outside the grid.
    OutOfRange,
}

pub type GridResult = Result<(), GridError>;

pub open spec fn cell_view(c: Option<Cell>) -> Option<CellView> {
    match c {
        Some(c) => Some(c@),
        None => None,
    }
}

/// One cell to render: at terminal `column` and `row`, either a cell's color
/// and value or, for `None`, two blank spaces on the default background.
#[derive(Debug, PartialEq, Eq)]
pub struct DrawCommand {
    pub column: u16,
    pub row: u16,
    pub cell: Option<Cell>,
}

pub struct DrawCommandView {
    pub column: nat,
    pub row: nat,
    pub cell: Option<CellView>,
}

impl View for DrawCommand {
    type V = DrawCommandView;

    open spec fn view(&self) -> DrawCommandView {
        DrawCommandView { column: self.column as nat, row: self.row as nat, cell: cell_view(self.cell) }
    }
}

/// The abstract state of a grid: its size, its cells by row (`cells[y][x]`),
/// whether it has ever been rendered, and the positions set since the last
/// render, in the order they were set.
pub struct GridView {
    pub width: nat,
    pub height: nat,
    pub cells: Seq<Seq<Option<CellView>>>,
    pub rendered: bool,
    pub pending: Seq<(nat, nat)>,
}

impl GridView {
    pub open spec fn in_bounds(self, x: int, y: int) -> bool {
        0 <= x < self.width && 0 <= y < self.height
    }

    pub open spec fn valid(self) -> bool {
        &&& self.width >= 1
        &&& self.height >= 1
        &&& self.cells.len() == self.height
        &&& forall|y: int| 0 <= y < self.height ==> #[trigger] self.cells[y].len() == self.width
        &&& forall|i: int|
            0 <= i < self.pending.len() ==> self.in_bounds(
                (#[trigger] self.pending[i]).0 as int,
                self.pending[i].1 as int,
            )
    }

    /// The cell at `(x, y)`; empty outside the grid.
    pub open spec fn cell_at(self, x: int, y: int) -> Option<CellView> {
        if self.in_bounds(x, y) {
            self.cells[y][x]
        } else {
            None
        }
    }

    /// A grid of the given size with every cell empty, never rendered.
    pub open spec fn blank(width: nat, height: nat) -> GridView {
        GridView {
            width,
            height,
            cells: Seq::new(height, |y: int| Seq::new(width, |x: int| None)),
            rendered: false,
            pending: Seq::empty(),
        }
    }

    /// The grid after `(x, y)` is set to `c` and recorded as pending.
    pub open spec fn with_cell(self, x: nat, y: nat, c: Option<CellView>) -> GridView {
        GridView {
            width: self.width,
            height: self.height,
            cells: self.cells.update(y as int, self.cells[y as int].update(x as int, c)),
            rendered: self.rendered,
            pending: self.pending.push((x, y)),
        }
    }

    /// Rendering the cell at `(x, y)`: it covers terminal columns `2x` and
    /// `2x + 1` of row `y`.
    pub open spec fn command_at(self, x: nat, y: nat) -> DrawCommandView {
        DrawCommandView { column: 2 * x, row: y, cell: self.cells[y as int][x as int] }
    }

    /// Every cell, row by row from the top, left to right within a row.
    pub open spec fn full_redraw(self) -> Seq<DrawCommandView> {
        Seq::new(
            self.width * self.height,
            |i: int| self.command_at((i % self.width as int) as nat, (i / self.width as int) as nat),
        )
    }

    /// The pending positions, in the order they were set, repeats included.
    pub open spec fn pending_redraw(self) -> Seq<DrawCommandView> {
        self.pending.map_values(|p: (nat, nat)| self.command_at(p.0, p.1))
    }

    /// What a draw renders: everything on the first draw, afterwards only
    /// what is pending.
    pub open spec fn draw_plan(self) -> Seq<DrawCommandView> {
        if self.rendered {
            self.pending_redraw()
        } else {
            self.full_redraw()
        }
    }

    /// The state after a draw: rendered, with nothing pending.
    pub open spec fn after_draw(self) -> GridView {
        GridView {
            width: self.width,
            height: self.height,
            cells: self.cells,
            rendered: true,
            pending: Seq::empty(),
        }
    }

    /// Every cell's terminal position fits a terminal coordinate.
    pub open spec fn fits_terminal(self) -> bool {
        2 * (self.width - 1) <= u16::MAX && self.height - 1 <= u16::MAX
    }
}

/// A fixed-size grid of optional cells, with the positions changed since the
/// last render.
#[derive(Debug, Clone, PartialEq, Eq)]
pub struct Grid {
    /// The cells by row: `grid[y][x]`.
    grid: Vec<Vec<Option<Cell>>>,
    /// The positions set since the last render, in order.
    changes: Vec<Point>,
    /// Whether the grid has been rendered whole once.
    rendered: bool,
    width: usize,
    height: usize,
}

impl View for Grid {
    type V = GridView;

    closed spec fn view(&self) -> GridView {
        GridView {
            width: self.width as nat,
            height: self.height as nat,
            cells: self.grid@.map_values(
                |row: Vec<Option<Cell>>| row@.map_values(|c: Option<Cell>| cell_view(c)),
            ),
            rendered: self.rendered,
            pending: self.changes@.map_values(|p: Point| p@),
        }
    }
}

impl Grid {
    /// The rows match the size, the size is at least one by one, and every
    /// pending position lies inside the grid.
    pub closed spec fn wf(&self) -> bool {
        self@.valid()
    }

    /// An empty grid of `width` columns and `height` rows.
    pub fn new(width: usize, height: usize) -> (g: Grid)
        requires
            width >= 1,
            height >= 1,
        ensures
            g.wf(),
            g@ == GridView::blank(width as nat, height as nat),
            forall|x: int, y: int| #[trigger] g@.cell_at(x, y) is None,
    {
        let mut grid: Vec<Vec<Option<Cell>>> = Vec::new();
        let mut y: usize = 0;
        while y < height
            invariant
                y <= height,
                grid@.len() == y,
                forall|j: int| 0 <= j < y ==> (#[trigger] grid@[j])@ =~= Seq::new(width as nat, |x: int| None::<Cell>),
            decreases height - y,
        {
            let mut row: Vec<Option<Cell>> = Vec::new();
            let mut x: usize = 0;
            while x < width
                invariant
                    x <= width,
                    row@ =~= Seq::new(x as nat, |i: int| None::<Cell>),
                decreases width - x,
            {
                row.push(None);
                x += 1;
            }
            grid.push(row);
            y += 1;
        }
        let g = Grid { grid, changes: Vec::new(), rendered: false, width, height };
        let ghost blank = GridView::blank(width as nat, height as nat);
        assert forall|j: int| 0 <= j < height implies g@.cells[j] =~= blank.cells[j] by {
            assert(grid@[j]@ =~= Seq::new(width as nat, |x: int| None::<Cell>));
        }
        assert(g@.cells =~= blank.cells);
        assert(g@.pending =~= blank.pending);
        g
    }

    /// A grid for a terminal of `columns` by `rows`, one column and one row
    /// smaller, so that drawing the last row never scrolls the screen.
    pub fn new_full_screen(columns: u16, rows: u16) -> (g: Grid)
        requires
            columns >= 2,
            rows >= 2,
        ensures
            g.wf(),
            g@ == GridView::blank((columns - 1) as nat, (rows - 1) as nat),
    {
        Grid::new((columns - 1) as usize, (rows - 1) as usize)
    }

    /// Sets the cell at column `x`, row `y` to `cell` (`None` clears it) and
    /// records the position for the next draw. Outside the grid nothing
    /// changes and the result is `OutOfRange`.
    pub fn set_cell(&mut self, x: usize, y: usize, cell: Option<Cell>) -> (r: GridResult)
        requires
            old(self).wf(),
        ensures
            final(self).wf(),
            old(self)@.in_bounds(x as int, y as int) ==> r is Ok && final(self)@ == old(
                self,
            )@.with_cell(x as nat, y as nat, cell_view(cell)),
            !old(self)@.in_bounds(x as int, y as int) ==> r == Err::<(), GridError>(
                GridError::OutOfRange,
            ) && *final(self) == *old(self),
            forall|i: int, j: int|
                #[trigger] final(self)@.cell_at(i, j) == if i == x && j == y
                    && old(self)@.in_bounds(i, j) {
                    cell_view(cell)
                } else {
                    old(self)@.cell_at(i, j)
                },
    {
        if x >= self.width || y >= self.height {
            return Err(GridError::OutOfRange);
        }
        let ghost before = self@;
        assert(before.cells[y as int].len() == self.width);
        self.grid[y][x] = cell;
        self.changes.push(Point::new(x, y));
        proof {
            let after = before.with_cell(x as nat, y as nat, cell_view(cell));
            assert(self@.cells[y as int] =~= after.cells[y as int]);
            assert(self@.cells =~= after.cells);
            assert(self@.pending =~= after.pending);
        }
        Ok(())
    }

    /// The cell at column `x`, row `y`; `None` when it is empty or outside
    /// the grid.
    pub fn get_cell(&self, x: usize, y: usize) -> (r: Option<Cell>)
        requires
            self.wf(),
        ensures
            cell_view(r) == self@.cell_at(x as int, y as int),
            !self@.in_bounds(x as int, y as int) ==> r is None,
    {
        if x < self.width && y < self.height {
            assert(self@.cells[y as int].len() == self.width);
            match &self.grid[y][x] {
                Some(c) => Some(c.clone()),
                None => None,
            }
        } else {
            None
        }
    }

    /// The commands that bring the terminal up to date, after which nothing
    /// is pending: on the first draw every cell, row by row; afterwards the
    /// cells set since the previous draw, in the order they were set.
    pub fn draw(&mut self) -> (commands: Vec<DrawCommand>)
        requires
            old(self).wf(),
            old(self)@.fits_terminal(),
        ensures
            final(self).wf(),
            final(self)@ == old(self)@.after_draw(),
            commands@.len() == old(self)@.draw_plan().len(),
            forall|i: int|
                0 <= i < commands@.len() ==> (#[trigger] commands@[i])@ == old(self)@.draw_plan()[i],
    {
        let commands = if self.rendered {
            self.draw_changes()
        } else {
            self.draw_all()
        };
        self.changes = Vec::new();
        self.rendered = true;
        assert(self@.pending =~= Seq::<(nat, nat)>::empty());
        commands
    }

    /// The command that renders the cell at `(x, y)`.
    fn command_at(&self, x: usize, y: usize) -> (c: DrawCommand)
        requires
            self.wf(),
            self@.fits_terminal(),
            self@.in_bounds(x as int, y as int),
        ensures
            c@ == self@.command_at(x as nat, y as nat),
    {
        let cell = self.get_cell(x, y);
        DrawCommand { column: (2 * x) as u16, row: y as u16, cell }
    }

    /// The commands for the pending positions, in order.
    fn draw_changes(&self) -> (commands: Vec<DrawCommand>)
        requires
            self.wf(),
            self@.fits_terminal(),
        ensures
            commands@.len() == self@.pending_redraw().len(),
            forall|i: int| 0 <= i < commands@.len() ==> (#[trigger] commands@[i])@ == self@.pending_redraw()[i],
    {
        let mut commands: Vec<DrawCommand> = Vec::new();
        let mut i: usize = 0;
        while i < self.changes.len()
            invariant
                self.wf(),
                self@.fits_terminal(),
                i <= self.changes@.len(),
                commands@.len() == i,
                forall|k: int| 0 <= k < i ==> (#[trigger] commands@[k])@ == self@.pending_redraw()[k],
            decreases self.changes@.len() - i,
        {
            let p = self.changes[i];
            assert(self@.pending[i as int] == p@);
            commands.push(self.command_at(p.x, p.y));
            i += 1;
        }
        commands
    }

    /// The commands for every cell, row by row from the top.
    fn draw_all(&self) -> (commands: Vec<DrawCommand>)
        requires
            self.wf(),
            self@.fits_terminal(),
        ensures
            commands@.len() == self@.full_redraw().len(),
            forall|i: int| 0 <= i < commands@.len() ==> (#[trigger] commands@[i])@ == self@.full_redraw()[i],
    {
        let ghost w = self.width as int;
        let mut commands: Vec<DrawCommand> = Vec::new();
        let mut y: usize = 0;
        while y < self.height
            invariant
                self.wf(),
                self@.fits_terminal(),
                w == self.width,
                y <= self.height,
                commands@.len() == y * w,
                forall|k: int|
                    0 <= k < commands@.len() ==> (#[trigger] commands@[k])@ == self@.full_redraw()[k],
            decreases self.height - y,
        {
            let mut x: usize = 0;
            while x < self.width
                invariant
                    self.wf(),
                    self@.fits_terminal(),
                    w == self.width,
                    y < self.height,
                    x <= self.width,
                    commands@.len() == y * w + x,
                    forall|k: int|
                        0 <= k < commands@.len() ==> (#[trigger] commands@[k])@
                            == self@.full_redraw()[k],
                decreases self.width - x,
            {
                proof {
                    lemma_fundamental_div_mod_converse(y * w + x, w, y as int, x as int);
                    assert((y + 1) * w == y * w + w) by (nonlinear_arith);
                    assert(y * w + x < self@.width * self@.height) by (nonlinear_arith)
                        requires
                            x < w,
                            y < self@.height,
                            w == self@.width,
                    ;
                }
                commands.push(self.command_at(x, y));
                x += 1;
            }
            assert((y + 1) * w == y * w + w) by (nonlinear_arith);
            y += 1;
        }
        assert(self@.height * w == self@.width * self@.height) by (nonlinear_arith)
            requires
                w == self@.width,
        ;
        commands
    }

    pub fn width(&self) -> (r: usize)
        ensures
            r as nat == self@.width,
    {
        self.width
    }

    pub fn height(&self) -> (r: usize)
        ensures
            r as nat == self@.height,
    {
        self.height
    }
}

impl Default for Grid {
    /// An empty grid of 80 columns and 50 rows.
    fn default() -> (g: Grid)
        ensures
            g.wf(),
            g@ == GridView::blank(80, 50),
    {
        Grid::new(80, 50)
    }
}

/// Drawing is idempotent once nothing has changed: a grid that was never
/// rendered is drawn whole (every cell exactly at its place in row order),
/// and a second draw with no change in between renders nothing and leaves
/// the state as it was.
pub proof fn lemma_draw_twice(g: GridView)
    requires
        g.valid(),
    ensures
        !g.rendered ==> g.draw_plan() == g.full_redraw(),
        g.full_redraw().len() == g.width * g.height,
        forall|x: nat, y: nat|
            #![trigger g.command_at(x, y)]
            g.in_bounds(x as int, y as int) ==> g.full_redraw()[(y * g.width + x) as int] == g.command_at(x, y),
        g.after_draw().draw_plan() == Seq::<DrawCommandView>::empty(),
        g.after_draw().after_draw() == g.after_draw(),
{
    assert forall|x: nat, y: nat|
        #![trigger g.command_at(x, y)]
        g.in_bounds(x as int, y as int) implies g.full_redraw()[(y * g.width + x) as int] == g.command_at(x, y) by {
        let w = g.width as int;
        lemma_fundamental_div_mod_converse(y * w + x, w, y as int, x as int);
        assert(y * w + x < g.width * g.height) by (nonlinear_arith)
            requires
                x < w,
                y < g.height,
                w == g.width,
        ;
    }
    assert(g.after_draw().pending_redraw() =~= Seq::<DrawCommandView>::empty());
}

} // verus!
