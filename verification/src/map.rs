//! The map of the world as text: what has been visited and what lies next to
//! the player, north at the top.
use crate::model::{PlaceView, Pos, WorldState, WorldView};
use crate::text::{owned, views};
use vstd::prelude::*;

verus! {

/// Whether two coordinates are next to each other, diagonals included, or
/// the same.
pub open spec fn near(a: Pos, b: Pos) -> bool {
    -1 <= a.0 - b.0 <= 1 && -1 <= a.1 - b.1 <= 1
}

/// Whether a place is shown on the map: it was visited, or lies next to the
/// player.
pub open spec fn shown(w: WorldView, p: PlaceView) -> bool {
    p.location.visited || near(p.pos, w.current_pos)
}

/// Whether a place that is shown lies at `pos`.
pub open spec fn shown_at(w: WorldView, pos: Pos) -> bool {
    exists|i: int| 0 <= i < w.locations.len() && shown_place_at(w, i, pos)
}

/// Whether the place at index `i` is shown and lies at `pos`.
pub open spec fn shown_place_at(w: WorldView, i: int, pos: Pos) -> bool {
    w.locations[i].pos == pos && shown(w, w.locations[i])
}

/// The part of the grid that a map covers.
pub struct Bounds {
    pub min_x: int,
    pub max_x: int,
    pub min_y: int,
    pub max_y: int,
}

impl Bounds {
    /// The bounds widened to take in `pos`.
    pub open spec fn with(self, pos: Pos) -> Bounds {
        Bounds {
            min_x: if pos.0 < self.min_x {
                pos.0 as int
            } else {
                self.min_x
            },
            max_x: if pos.0 > self.max_x {
                pos.0 as int
            } else {
                self.max_x
            },
            min_y: if pos.1 < self.min_y {
                pos.1 as int
            } else {
                self.min_y
            },
            max_y: if pos.1 > self.max_y {
                pos.1 as int
            } else {
                self.max_y
            },
        }
    }

    /// The bounds that take in `pos` alone.
    pub open spec fn around(pos: Pos) -> Bounds {
        Bounds { min_x: pos.0 as int, max_x: pos.0 as int, min_y: pos.1 as int, max_y: pos.1 as int }
    }

    /// Whether `pos` lies within the bounds.
    pub open spec fn holds(self, pos: Pos) -> bool {
        self.min_x <= pos.0 <= self.max_x && self.min_y <= pos.1 <= self.max_y
    }

    /// The number of columns.
    pub open spec fn width(self) -> int {
        self.max_x - self.min_x + 1
    }

    /// The number of rows.
    pub open spec fn height(self) -> int {
        self.max_y - self.min_y + 1
    }

    /// The column of `pos`.
    pub open spec fn column(self, pos: Pos) -> int {
        pos.0 - self.min_x
    }

    /// The row of `pos`: north is at the top.
    pub open spec fn row(self, pos: Pos) -> int {
        self.max_y - pos.1
    }
}

/// The bounds of the shown places among the first `n`, where there is one.
pub open spec fn bounds_of(w: WorldView, n: nat) -> Option<Bounds>
    decreases n,
{
    if n == 0 {
        None
    } else {
        let before = bounds_of(w, (n - 1) as nat);
        let p = w.locations[n - 1];
        if shown(w, p) {
            match before {
                Some(b) => Some(b.with(p.pos)),
                None => Some(Bounds::around(p.pos)),
            }
        } else {
            before
        }
    }
}

/// A grid with the character `c` at row `row`, column `column`.
pub open spec fn put(grid: Seq<Seq<char>>, row: int, column: int, c: char) -> Seq<Seq<char>> {
    grid.update(row, grid[row].update(column, c))
}

/// The mark of a place: the player, a visited place, or one only seen.
pub open spec fn mark(w: WorldView, p: PlaceView) -> char {
    if p.pos == w.current_pos {
        '@'
    } else if p.location.visited {
        '#'
    } else {
        '?'
    }
}

/// The grid after the place `p` was drawn: its mark, then a path mark in the
/// cell of its northern neighbour, where its exit leads to a shown place
/// further up, then one in its own column for its eastern neighbour, where
/// its exit leads to a shown place further right.
pub open spec fn draw_place(w: WorldView, b: Bounds, grid: Seq<Seq<char>>, p: PlaceView) -> Seq<
    Seq<char>,
> {
    let marked = put(grid, b.row(p.pos), b.column(p.pos), mark(w, p));
    let north = match p.location.exit("north"@) {
        Some(Some(n)) => if shown_at(w, n) && b.row(n) < b.row(p.pos) {
            put(marked, b.row(n), b.column(n), '|')
        } else {
            marked
        },
        _ => marked,
    };
    match p.location.exit("east"@) {
        Some(Some(e)) => if shown_at(w, e) && b.column(e) > b.column(p.pos) {
            put(north, b.row(e), b.column(p.pos), '-')
        } else {
            north
        },
        _ => north,
    }
}

/// A grid of dots.
pub open spec fn blank(height: int, width: int) -> Seq<Seq<char>> {
    Seq::new(height as nat, |r: int| Seq::new(width as nat, |c: int| '.'))
}

/// The grid after the shown places among the first `n` were drawn, in the
/// order in which they are listed.
pub open spec fn drawn(w: WorldView, b: Bounds, n: nat) -> Seq<Seq<char>>
    decreases n,
{
    if n == 0 {
        blank(b.height(), b.width())
    } else {
        let before = drawn(w, b, (n - 1) as nat);
        if shown(w, w.locations[n - 1]) {
            draw_place(w, b, before, w.locations[n - 1])
        } else {
            before
        }
    }
}

/// The rows of a grid as text, a line feed between them.
pub open spec fn grid_text(grid: Seq<Seq<char>>) -> Seq<char>
    decreases grid.len(),
{
    if grid.len() == 0 {
        Seq::empty()
    } else if grid.len() == 1 {
        grid[0]
    } else {
        grid_text(grid.drop_last()) + seq!['\n'] + grid.last()
    }
}

/// The map of the world as text. Shown are the places that were visited or
/// lie next to the player, within the smallest frame that holds them all.
pub open spec fn map_text(w: WorldView) -> Seq<char> {
    if w.locations.len() == 0 {
        "No locations"@
    } else {
        match bounds_of(w, w.locations.len()) {
            None => "No visible locations"@,
            Some(b) => if b.width() <= usize::MAX && b.height() <= usize::MAX {
                grid_text(drawn(w, b, w.locations.len()))
            } else {
                "Map too large"@
            },
        }
    }
}

/// Whether every row of a grid has `width` cells, and there are `height`
/// rows.
pub open spec fn sized(grid: Seq<Seq<char>>, height: int, width: int) -> bool {
    grid.len() == height && forall|r: int| 0 <= r < height ==> (#[trigger] grid[r]).len() == width
}

/// Whether there are bounds, and they hold `pos`.
pub open spec fn covers(bounds: Option<Bounds>, pos: Pos) -> bool {
    match bounds {
        Some(b) => b.holds(pos),
        None => false,
    }
}

/// Whether bounds, where there are any, are in order and within the range of
/// coordinates.
pub open spec fn proper(bounds: Option<Bounds>) -> bool {
    match bounds {
        Some(b) => b.min_x <= b.max_x && b.min_y <= b.max_y && i32::MIN <= b.min_x && b.max_x
            <= i32::MAX && i32::MIN <= b.min_y && b.max_y <= i32::MAX,
        None => true,
    }
}

/// The bounds of the first `n` places hold every shown place among them, and
/// stay within what was listed.
pub proof fn lemma_bounds(w: WorldView, n: nat)
    requires
        n <= w.locations.len(),
    ensures
        forall|k: int|
            0 <= k < n && shown(w, w.locations[k]) ==> covers(
                bounds_of(w, n),
                (#[trigger] w.locations[k]).pos,
            ),
        proper(bounds_of(w, n)),
    decreases n,
{
    if n > 0 {
        lemma_bounds(w, (n - 1) as nat);
    }
}

/// Whatever is shown lies within the bounds of all places.
pub proof fn lemma_shown_within(w: WorldView, pos: Pos)
    requires
        shown_at(w, pos),
    ensures
        covers(bounds_of(w, w.locations.len()), pos),
{
    let i = choose|i: int| 0 <= i < w.locations.len() && shown_place_at(w, i, pos);
    lemma_bounds(w, w.locations.len());
}

/// Putting a character into a cell of a grid keeps the size of the grid.
pub proof fn lemma_put_sized(grid: Seq<Seq<char>>, height: int, width: int, row: int, column: int, c: char)
    requires
        sized(grid, height, width),
        0 <= row < height,
        0 <= column < width,
    ensures
        sized(put(grid, row, column, c), height, width),
{
    let after = put(grid, row, column, c);
    assert forall|r: int| 0 <= r < height implies (#[trigger] after[r]).len() == width by {
        if r != row {
            assert(after[r] == grid[r]);
        }
    }
}

/// Whether two coordinates are next to each other.
fn is_near(a: Pos, b: Pos) -> (r: bool)
    ensures
        r == near(a, b),
{
    let dx: i64 = a.0 as i64 - b.0 as i64;
    let dy: i64 = a.1 as i64 - b.1 as i64;
    -1 <= dx && dx <= 1 && -1 <= dy && dy <= 1
}

impl WorldState {
    /// Whether the place at index `i` is shown on the map.
    fn shows(&self, i: usize) -> (r: bool)
        requires
            i < self.locations.len(),
        ensures
            r == shown(self@, self@.locations[i as int]),
    {
        self.locations[i].location.visited || is_near(self.locations[i].pos, self.current_pos)
    }

    /// Whether a place that is shown lies at `pos`.
    fn shows_at(&self, pos: Pos) -> (r: bool)
        ensures
            r == shown_at(self@, pos),
    {
        let mut i: usize = 0;
        while i < self.locations.len()
            invariant
                i <= self.locations.len(),
                forall|k: int| 0 <= k < i ==> !shown_place_at(self@, k, pos),
            decreases self.locations.len() - i,
        {
            if self.locations[i].pos.0 == pos.0 && self.locations[i].pos.1 == pos.1 && self.shows(
                i,
            ) {
                assert(shown_place_at(self@, i as int, pos));
                return true;
            }
            i += 1;
        }
        false
    }
}

/// Puts a character into a cell of a grid.
fn set_cell(grid: &mut Vec<Vec<char>>, row: usize, column: usize, c: char)
    requires
        row < old(grid).len(),
        column < old(grid)[row as int].len(),
    ensures
        views(final(grid)@) == put(views(old(grid)@), row as int, column as int, c),
{
    grid[row][column] = c;
    proof {
        assert(views(grid@) =~= put(views(old(grid)@), row as int, column as int, c));
    }
}

/// Makes a grid of dots.
fn make_blank(height: usize, width: usize) -> (grid: Vec<Vec<char>>)
    ensures
        views(grid@) == blank(height as int, width as int),
{
    let mut grid: Vec<Vec<char>> = Vec::new();
    while grid.len() < height
        invariant
            grid.len() <= height,
            forall|r: int| 0 <= r < grid.len() ==> (#[trigger] grid@[r])@ == Seq::new(
                width as nat,
                |c: int| '.',
            ),
        decreases height - grid.len(),
    {
        let mut row: Vec<char> = Vec::new();
        while row.len() < width
            invariant
                row.len() <= width,
                forall|c: int| 0 <= c < row.len() ==> row@[c] == '.',
            decreases width - row.len(),
        {
            row.push('.');
        }
        proof {
            assert(row@ =~= Seq::new(width as nat, |c: int| '.'));
        }
        grid.push(row);
    }
    proof {
        assert(views(grid@) =~= blank(height as int, width as int));
    }
    grid
}

/// Appends the characters of a row to a text.
fn push_row(out: &mut String, row: &Vec<char>)
    ensures
        final(out)@ == old(out)@ + row@,
{
    let mut i: usize = 0;
    proof {
        assert(out@ =~= old(out)@ + row@.take(0));
    }
    while i < row.len()
        invariant
            i <= row.len(),
            out@ == old(out)@ + row@.take(i as int),
        decreases row.len() - i,
    {
        out.push(row[i]);
        proof {
            assert(out@ =~= old(out)@ + row@.take(i + 1));
        }
        i += 1;
    }
    proof {
        assert(row@.take(i as int) =~= row@);
    }
}

/// Writes the rows of a grid as text.
fn write_grid(grid: &Vec<Vec<char>>) -> (r: String)
    ensures
        r@ == grid_text(views(grid@)),
{
    let mut out = String::new();
    let mut i: usize = 0;
    proof {
        assert(views(grid@).take(0) =~= Seq::<Seq<char>>::empty());
    }
    while i < grid.len()
        invariant
            i <= grid.len(),
            out@ == grid_text(views(grid@).take(i as int)),
        decreases grid.len() - i,
    {
        proof {
            let all = views(grid@);
            assert(all.take(i + 1).drop_last() =~= all.take(i as int));
            assert(all.take(i + 1).last() == grid@[i as int]@);
            if i == 0 {
                assert(all.take(1)[0] == grid@[0]@);
            }
        }
        let ghost before = out@;
        if i > 0 {
            out.push('\n');
        }
        let ghost mid = out@;
        push_row(&mut out, &grid[i]);
        proof {
            if i == 0 {
                assert(before =~= Seq::<char>::empty());
                assert(out@ =~= grid@[0]@);
            } else {
                assert(mid =~= before + seq!['\n']);
            }
        }
        i += 1;
    }
    proof {
        assert(views(grid@).take(i as int) =~= views(grid@));
    }
    out
}

impl WorldState {
    /// The map of the world as text.
    pub fn render_map(&self) -> (r: String)
        ensures
            r@ == map_text(self@),
    {
        if self.locations.len() == 0 {
            return owned("No locations");
        }
        let mut found = false;
        let mut min_x: i32 = 0;
        let mut max_x: i32 = 0;
        let mut min_y: i32 = 0;
        let mut max_y: i32 = 0;
        let mut i: usize = 0;
        while i < self.locations.len()
            invariant
                i <= self.locations.len(),
                bounds_of(self@, i as nat) == (if found {
                    Some(
                        Bounds {
                            min_x: min_x as int,
                            max_x: max_x as int,
                            min_y: min_y as int,
                            max_y: max_y as int,
                        },
                    )
                } else {
                    None
                }),
            decreases self.locations.len() - i,
        {
            if self.shows(i) {
                let pos = self.locations[i].pos;
                if !found {
                    found = true;
                    min_x = pos.0;
                    max_x = pos.0;
                    min_y = pos.1;
                    max_y = pos.1;
                } else {
                    if pos.0 < min_x {
                        min_x = pos.0;
                    }
                    if pos.0 > max_x {
                        max_x = pos.0;
                    }
                    if pos.1 < min_y {
                        min_y = pos.1;
                    }
                    if pos.1 > max_y {
                        max_y = pos.1;
                    }
                }
            }
            i += 1;
        }
        if !found {
            return owned("No visible locations");
        }
        let ghost b = Bounds {
            min_x: min_x as int,
            max_x: max_x as int,
            min_y: min_y as int,
            max_y: max_y as int,
        };
        proof {
            lemma_bounds(self@, self@.locations.len());
        }
        let wide: u64 = (max_x as i64 - min_x as i64 + 1) as u64;
        let high: u64 = (max_y as i64 - min_y as i64 + 1) as u64;
        if wide > usize::MAX as u64 || high > usize::MAX as u64 {
            return owned("Map too large");
        }
        let width: usize = wide as usize;
        let height: usize = high as usize;
        let mut grid = make_blank(height, width);
        let mut i: usize = 0;
        while i < self.locations.len()
            invariant
                i <= self.locations.len(),
                bounds_of(self@, self@.locations.len()) == Some(b),
                b == (Bounds {
                    min_x: min_x as int,
                    max_x: max_x as int,
                    min_y: min_y as int,
                    max_y: max_y as int,
                }),
                width == b.width(),
                height == b.height(),
                sized(views(grid@), height as int, width as int),
                views(grid@) == drawn(self@, b, i as nat),
            decreases self.locations.len() - i,
        {
            if self.shows(i) {
                let pos = self.locations[i].pos;
                proof {
                    lemma_bounds(self@, self@.locations.len());
                    assert(covers(bounds_of(self@, self@.locations.len()), self@.locations[i as int].pos));
                }
                let gx: usize = (pos.0 as i64 - min_x as i64) as usize;
                let gy: usize = (max_y as i64 - pos.1 as i64) as usize;
                let c = if pos.0 == self.current_pos.0 && pos.1 == self.current_pos.1 {
                    '@'
                } else if self.locations[i].location.visited {
                    '#'
                } else {
                    '?'
                };
                proof {
                    assert(views(grid@)[gy as int].len() == width);
                    lemma_put_sized(views(grid@), height as int, width as int, gy as int, gx as int, c);
                }
                set_cell(&mut grid, gy, gx, c);
                match self.locations[i].location.exit("north") {
                    Some(Some(n)) => {
                        if self.shows_at(n) {
                            proof {
                                lemma_shown_within(self@, n);
                            }
                            let ngx: usize = (n.0 as i64 - min_x as i64) as usize;
                            let ngy: usize = (max_y as i64 - n.1 as i64) as usize;
                            if ngy < gy {
                                proof {
                                    assert(views(grid@)[ngy as int].len() == width);
                                    lemma_put_sized(
                                        views(grid@),
                                        height as int,
                                        width as int,
                                        ngy as int,
                                        ngx as int,
                                        '|',
                                    );
                                }
                                set_cell(&mut grid, ngy, ngx, '|');
                            }
                        }
                    },
                    _ => {},
                }
                match self.locations[i].location.exit("east") {
                    Some(Some(e)) => {
                        if self.shows_at(e) {
                            proof {
                                lemma_shown_within(self@, e);
                            }
                            let egx: usize = (e.0 as i64 - min_x as i64) as usize;
                            let egy: usize = (max_y as i64 - e.1 as i64) as usize;
                            if egx > gx {
                                proof {
                                    assert(views(grid@)[egy as int].len() == width);
                                    lemma_put_sized(
                                        views(grid@),
                                        height as int,
                                        width as int,
                                        egy as int,
                                        gx as int,
                                        '-',
                                    );
                                }
                                set_cell(&mut grid, egy, gx, '-');
                            }
                        }
                    },
                    _ => {},
                }
            }
            i += 1;
        }
        write_grid(&grid)
    }
}

} // verus!
