//! A toroidal Game of Life universe on a resizable rectangular grid.

use vstd::prelude::*;

use crate::size::{u32_to_usize, usize_to_u32, SizeU32};

verus! {

/// One cell of the universe.
#[derive(Clone, Copy, PartialEq, Eq, Structural, Debug)]
pub enum Cell {
    Dead,
    Live,
}

impl Cell {
    /// One for a live cell, zero for a dead one.
    fn to_u8(self) -> (r: u8)
        ensures
            r == live_count(self),
    {
        match self {
            Cell::Dead => 0,
            Cell::Live => 1,
        }
    }
}

/// Zero-based row and column indexes.
#[derive(Clone, Copy)]
pub struct Point {
    pub i: u32,
    pub j: u32,
}

/// How much a cell contributes to a neighbor count.
pub open spec fn live_count(c: Cell) -> int {
    if c is Live {
        1
    } else {
        0
    }
}

/// A vector of rows, abstracted to a sequence of sequences.
pub open spec fn rows_view(rows: Seq<Vec<Cell>>) -> Seq<Seq<Cell>> {
    rows.map_values(|row: Vec<Cell>| row@)
}

/// The number of live cells among the eight toroidal neighbors of `(i, j)`
/// in an `h` by `w` grid.
pub open spec fn neighbor_count(g: Seq<Seq<Cell>>, h: int, w: int, i: int, j: int) -> int
    recommends
        0 < h,
        0 < w,
{
    let up = (i + h - 1) % h;
    let down = (i + 1) % h;
    let left = (j + w - 1) % w;
    let right = (j + 1) % w;
    live_count(g[up][left]) + live_count(g[up][j]) + live_count(g[up][right]) + live_count(
        g[i][left],
    ) + live_count(g[i][right]) + live_count(g[down][left]) + live_count(g[down][j]) + live_count(
        g[down][right],
    )
}

/// The Game of Life update rule: a live cell survives with two or three
/// live neighbors, a dead cell comes alive with exactly three, and every
/// other cell dies or stays dead.
pub open spec fn life_rule(c: Cell, n: int) -> Cell {
    if c is Live && !(2 <= n <= 3) {
        Cell::Dead
    } else if c is Live || n == 3 {
        Cell::Live
    } else {
        c
    }
}

/// Looks up a cell of a rectangular grid.
fn at(rows: &Vec<Vec<Cell>>, p: Point) -> (r: Cell)
    requires
        p.i < rows@.len(),
        p.j < rows@[p.i as int]@.len(),
    ensures
        r == rows_view(rows@)[p.i as int][p.j as int],
{
    rows[u32_to_usize(p.i)][u32_to_usize(p.j)]
}

/// Counts the live toroidal neighbors of `p` in a grid of the given size.
fn count_live_neighbors(rows: &Vec<Vec<Cell>>, size: SizeU32, p: Point) -> (r: u8)
    requires
        0 < size.height <= 0x8000_0000u32,
        0 < size.width <= 0x8000_0000u32,
        rows@.len() == size.height,
        forall|i: int| 0 <= i < rows@.len() ==> (#[trigger] rows@[i])@.len() == size.width,
        p.i < size.height,
        p.j < size.width,
    ensures
        r == neighbor_count(
            rows_view(rows@),
            size.height as int,
            size.width as int,
            p.i as int,
            p.j as int,
        ),
{
    let h = size.height;
    let w = size.width;
    let up = (p.i + (h - 1)) % h;
    let down = (p.i + 1) % h;
    let left = (p.j + (w - 1)) % w;
    let right = (p.j + 1) % w;
    let mut count: u8 = 0;
    count += at(rows, Point { i: up, j: left }).to_u8();
    count += at(rows, Point { i: up, j: p.j }).to_u8();
    count += at(rows, Point { i: up, j: right }).to_u8();
    count += at(rows, Point { i: p.i, j: left }).to_u8();
    count += at(rows, Point { i: p.i, j: right }).to_u8();
    count += at(rows, Point { i: down, j: left }).to_u8();
    count += at(rows, Point { i: down, j: p.j }).to_u8();
    count += at(rows, Point { i: down, j: right }).to_u8();
    count
}

/// A rectangular, toroidally wrapping Game of Life grid, with a second
/// buffer kept around to avoid reallocating on every generation.
pub struct Universe {
    rows: Vec<Vec<Cell>>,
    last: Vec<Vec<Cell>>,
}

impl Universe {
    /// The grid as a sequence of rows.
    pub closed spec fn grid(self) -> Seq<Seq<Cell>> {
        rows_view(self.rows@)
    }

    /// The cell at row `i`, column `j`.
    pub open spec fn cell(self, i: int, j: int) -> Cell {
        self.grid()[i][j]
    }

    /// The grid is rectangular and fits in `u32` dimensions.
    pub open spec fn wf(self) -> bool {
        &&& self.grid().len() <= u32::MAX
        &&& self.width_spec() <= u32::MAX
        &&& (forall|i: int|
            0 <= i < self.grid().len() ==> (#[trigger] self.grid()[i]).len() == self.width_spec())
    }

    /// The number of rows.
    pub open spec fn height_spec(self) -> int {
        self.grid().len() as int
    }

    /// The number of columns: the length of the first row, or zero.
    pub open spec fn width_spec(self) -> int {
        if self.grid().len() == 0 {
            0
        } else {
            self.grid()[0].len() as int
        }
    }

    /// An empty universe.
    pub fn new() -> (r: Universe)
        ensures
            r.wf(),
            r.height_spec() == 0,
            r.width_spec() == 0,
    {
        Universe { rows: Vec::new(), last: Vec::new() }
    }

    /// Resizes the grid, keeping surviving cells and filling new ones with
    /// dead cells.
    pub fn resize(&mut self, size: SizeU32)
        ensures
            final(self).wf(),
            final(self).height_spec() == size.height,
            size.height > 0 ==> final(self).width_spec() == size.width,
            forall|i: int, j: int|
                0 <= i < size.height && 0 <= j < size.width ==> final(self).cell(i, j) == (if i
                    < old(self).grid().len() && j < old(self).grid()[i].len() {
                    old(self).grid()[i][j]
                } else {
                    Cell::Dead
                }),
    {
        let target_h = u32_to_usize(size.height);
        let target_w = u32_to_usize(size.width);
        let ghost prior = self.grid();
        let mut next: Vec<Vec<Cell>> = Vec::new();
        let mut i: usize = 0;
        while i < target_h
            invariant
                prior == old(self).grid(),
                i <= target_h,
                next@.len() == i,
                forall|k: int|
                    0 <= k < i ==> (#[trigger] next@[k])@.len() == target_w,
                forall|k: int, j: int|
                    0 <= k < i && 0 <= j < target_w ==> #[trigger] next@[k]@[j] == (if k
                        < prior.len() && j < prior[k].len() {
                        prior[k][j]
                    } else {
                        Cell::Dead
                    }),
            decreases target_h - i,
        {
            let mut row: Vec<Cell> = Vec::new();
            let mut j: usize = 0;
            while j < target_w
                invariant
                    prior == old(self).grid(),
                    i < target_h,
                    j <= target_w,
                    row@.len() == j,
                    forall|b: int|
                        0 <= b < j ==> row@[b] == (if (i as int) < prior.len() && b < prior[i as int].len() {
                            prior[i as int][b]
                        } else {
                            Cell::Dead
                        }),
                decreases target_w - j,
            {
                let c = if i < self.rows.len() && j < self.rows[i].len() {
                    self.rows[i][j]
                } else {
                    Cell::Dead
                };
                row.push(c);
                j += 1;
            }
            next.push(row);
            i += 1;
        }
        self.rows = next;
    }

    /// The grid height.
    pub fn height(&self) -> (r: u32)
        requires
            self.wf(),
        ensures
            r == self.height_spec(),
    {
        usize_to_u32(self.rows.len())
    }

    /// The grid width.
    pub fn width(&self) -> (r: u32)
        requires
            self.wf(),
        ensures
            r == self.width_spec(),
    {
        if self.rows.len() == 0 {
            0
        } else {
            usize_to_u32(self.rows[0].len())
        }
    }

    /// The current size.
    fn size(&self) -> (r: SizeU32)
        requires
            self.wf(),
        ensures
            r.height == self.height_spec(),
            r.width == self.width_spec(),
    {
        let height = self.height();
        let width = self.width();
        SizeU32 { height, width }
    }

    /// The cell at point `p`.
    pub fn at(&self, p: Point) -> (r: Cell)
        requires
            self.wf(),
            p.i < self.height_spec(),
            p.j < self.width_spec(),
        ensures
            r == self.cell(p.i as int, p.j as int),
    {
        self.rows[u32_to_usize(p.i)][u32_to_usize(p.j)]
    }

    /// Replaces the cell at row `i`, column `j`.
    pub fn set(&mut self, i: u32, j: u32, c: Cell)
        requires
            old(self).wf(),
            i < old(self).height_spec(),
            j < old(self).width_spec(),
        ensures
            final(self).wf(),
            final(self).grid() == old(self).grid().update(
                i as int,
                old(self).grid()[i as int].update(j as int, c),
            ),
            final(self).height_spec() == old(self).height_spec(),
            final(self).width_spec() == old(self).width_spec(),
    {
        proof {
            assert(self.grid()[i as int] == self.rows@[i as int]@);
        }
        let row = &mut self.rows[u32_to_usize(i)];
        row.set(u32_to_usize(j), c);
        proof {
            assert(self.grid() =~= old(self).grid().update(
                i as int,
                old(self).grid()[i as int].update(j as int, c),
            ));
        }
    }

    /// Advances the universe one generation under the Game of Life rule,
    /// with neighbor counts wrapping toroidally.
    pub fn tick(&mut self)
        requires
            old(self).wf(),
            old(self).height_spec() <= 0x8000_0000u32,
            old(self).width_spec() <= 0x8000_0000u32,
        ensures
            final(self).wf(),
            final(self).height_spec() == old(self).height_spec(),
            old(self).height_spec() > 0 ==> final(self).width_spec() == old(self).width_spec(),
            forall|i: int, j: int|
                0 <= i < old(self).height_spec() && 0 <= j < old(self).width_spec() ==> final(self).cell(i, j) == life_rule(
                    old(self).cell(i, j),
                    neighbor_count(
                        old(self).grid(),
                        old(self).height_spec(),
                        old(self).width_spec(),
                        i,
                        j,
                    ),
                ),
    {
        let size = self.size();
        let h = size.height;
        let w = size.width;
        let ghost prior = self.grid();
        proof {
            assert(self.rows@.len() == self.grid().len());
            assert forall|k: int| 0 <= k < self.rows@.len() implies (#[trigger] self.rows@[k])@
                .len() == w by {
                assert(self.grid()[k] == self.rows@[k]@);
            }
        }
        let mut next: Vec<Vec<Cell>> = Vec::new();
        let mut i: u32 = 0;
        while i < h
            invariant
                self.wf(),
                prior == self.grid(),
                size.height == h,
                size.width == w,
                h == self.height_spec(),
                w == self.width_spec(),
                h <= 0x8000_0000u32,
                w <= 0x8000_0000u32,
                self.rows@.len() == h,
                forall|k: int| 0 <= k < self.rows@.len() ==> (#[trigger] self.rows@[k])@.len() == w,
                i <= h,
                next@.len() == i,
                forall|k: int| 0 <= k < i ==> (#[trigger] next@[k])@.len() == w,
                forall|k: int, b: int|
                    0 <= k < i && 0 <= b < w ==> #[trigger] next@[k]@[b] == life_rule(
                        prior[k][b],
                        neighbor_count(prior, h as int, w as int, k, b),
                    ),
            decreases h - i,
        {
            let mut row: Vec<Cell> = Vec::new();
            let mut j: u32 = 0;
            while j < w
                invariant
                    self.wf(),
                    prior == self.grid(),
                    size.height == h,
                    size.width == w,
                    h == self.height_spec(),
                    w == self.width_spec(),
                    0 < h <= 0x8000_0000u32,
                    0 < w <= 0x8000_0000u32 || j == 0,
                    self.rows@.len() == h,
                    forall|k: int|
                        0 <= k < self.rows@.len() ==> (#[trigger] self.rows@[k])@.len() == w,
                    i < h,
                    j <= w,
                    row@.len() == j,
                    w <= 0x8000_0000u32,
                    forall|b: int|
                        0 <= b < j ==> row@[b] == life_rule(
                            prior[i as int][b],
                            neighbor_count(prior, h as int, w as int, i as int, b),
                        ),
                decreases w - j,
            {
                let p = Point { i, j };
                let c = at(&self.rows, p);
                let n = count_live_neighbors(&self.rows, size, p);
                let d = if matches!(c, Cell::Live) && !(2 <= n && n <= 3) {
                    Cell::Dead
                } else if matches!(c, Cell::Live) || n == 3 {
                    Cell::Live
                } else {
                    c
                };
                proof {
                    assert(c == prior[i as int][j as int]);
                    assert(n == neighbor_count(prior, h as int, w as int, i as int, j as int));
                    assert(d == life_rule(
                        prior[i as int][j as int],
                        neighbor_count(prior, h as int, w as int, i as int, j as int),
                    ));
                }
                row.push(d);
                j += 1;
            }
            next.push(row);
            i += 1;
        }
        std::mem::swap(&mut self.rows, &mut self.last);
        self.rows = next;
    }

    /// Paints a fixed speckle pattern over the whole grid: cells whose
    /// linear index is divisible by two or seven come alive.
    pub fn speckle(&mut self)
        requires
            old(self).wf(),
            old(self).height_spec() * old(self).width_spec() <= u32::MAX,
        ensures
            final(self).wf(),
            final(self).height_spec() == old(self).height_spec(),
            final(self).width_spec() == old(self).width_spec(),
            forall|i: int, j: int|
                0 <= i < old(self).height_spec() && 0 <= j < old(self).width_spec()
                    ==> #[trigger] final(self).cell(i, j) == (if (i * old(self).width_spec() + j)
                    % 2 == 0 || (i * old(self).width_spec() + j) % 7 == 0 {
                    Cell::Live
                } else {
                    Cell::Dead
                }),
    {
        let h = self.height();
        let w = self.width();
        let mut i: u32 = 0;
        while i < h
            invariant
                self.wf(),
                i <= h,
                h == self.height_spec(),
                w == self.width_spec(),
                h * w <= u32::MAX,
                forall|a: int, b: int|
                    0 <= a < i && 0 <= b < w ==> #[trigger] self.cell(a, b) == (if (a * w + b) % 2
                        == 0 || (a * w + b) % 7 == 0 {
                        Cell::Live
                    } else {
                        Cell::Dead
                    }),
            decreases h - i,
        {
            let mut j: u32 = 0;
            while j < w
                invariant
                    self.wf(),
                    i < h,
                    j <= w,
                    h == self.height_spec(),
                    w == self.width_spec(),
                    h * w <= u32::MAX,
                    forall|a: int, b: int|
                        0 <= a < i && 0 <= b < w ==> #[trigger] self.cell(a, b) == (if (a * w + b)
                            % 2 == 0 || (a * w + b) % 7 == 0 {
                            Cell::Live
                        } else {
                            Cell::Dead
                        }),
                    forall|b: int|
                        0 <= b < j ==> #[trigger] self.cell(i as int, b) == (if (i * w + b) % 2
                            == 0 || (i * w + b) % 7 == 0 {
                            Cell::Live
                        } else {
                            Cell::Dead
                        }),
                decreases w - j,
            {
                proof {
                    assert(i * w + j < u32::MAX) by (nonlinear_arith)
                        requires
                            i < h,
                            j < w,
                            h * w <= u32::MAX,
                    ;
                }
                let k = i * w + j;
                let c = if k % 2 == 0 || k % 7 == 0 {
                    Cell::Live
                } else {
                    Cell::Dead
                };
                let ghost pre = *self;
                self.set(i, j, c);
                proof {
                    assert(self.cell(i as int, j as int) == c);
                    assert forall|a: int, b: int|
                        0 <= a < i && 0 <= b < w implies #[trigger] self.cell(a, b) == pre.cell(
                        a,
                        b,
                    ) by {
                        assert(self.grid()[a] == pre.grid()[a]);
                    }
                    assert forall|b: int| 0 <= b < j implies #[trigger] self.cell(i as int, b)
                        == pre.cell(i as int, b) by {
                        assert(self.grid()[i as int][b] == pre.grid()[i as int].update(
                            j as int,
                            c,
                        )[b]);
                    }
                }
                j += 1;
            }
            i += 1;
        }
    }
}

} // verus!
