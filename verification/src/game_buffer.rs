//! The character grid that a game is painted on.
//!
//! The grid has a cell for every cell of the window. A frame is painted in
//! layers: the header line with score and lives, the two boundary lines of
//! the playable area, the ship, the ship's bullet, the enemies and the
//! enemy bullets. A later layer paints over an earlier one. Destroyed
//! entities are not painted, and neither is what lies outside the grid.
//! A header that is wider than the playable area is never cut off: such a
//! game is not painted at all, and [`GameBuffer::can_draw`] tells.

use vstd::prelude::*;
use vstd::string::StringExecFns;
use vstd::string::StrSliceExecFns;
use crate::container::Container;
use crate::enemy::{AlienView, SmallAlien};
use crate::game::{aliens_view, bullets_view, Game};
use crate::model::{playable_area_of, window_fits, window_of, GameView, SHIP_LENGTH};
use crate::ship::ShipView;
use crate::weapon::{Bullet, BulletView};

verus! {

/// A grid of cells, row by row; a cell holds the text it shows.
pub type Grid = Seq<Seq<Seq<char>>>;

/// The cells of a row as mathematical values.
pub open spec fn row_view(row: Vec<String>) -> Seq<Seq<char>> {
    row@.map_values(|cell: String| cell@)
}

/// The rows of a grid as mathematical values.
pub open spec fn grid_view(grid: Seq<Vec<String>>) -> Grid {
    grid.map_values(|row: Vec<String>| row_view(row))
}

/// What an empty cell shows.
pub open spec fn space() -> Seq<char> {
    seq![' ']
}

/// What a cell of a boundary line shows.
pub open spec fn dash() -> Seq<char> {
    seq!['-']
}

/// The grid of `rows` by `cols` empty cells.
pub open spec fn blank(rows: nat, cols: nat) -> Grid {
    Seq::new(rows, |r: int| Seq::new(cols, |c: int| space()))
}

/// Every row of the grid has `cols` cells, and there are `rows` of them.
pub open spec fn has_shape(grid: Grid, rows: nat, cols: nat) -> bool {
    grid.len() == rows && forall|r: int| 0 <= r < rows ==> (#[trigger] grid[r]).len() == cols
}

/// The grid with the cell in column `x` of row `y` showing `s`. A cell that
/// the grid does not have is not painted.
pub open spec fn put(grid: Grid, x: int, y: int, s: Seq<char>) -> Grid {
    if 0 <= y < grid.len() && 0 <= x < grid[y].len() {
        grid.update(y, grid[y].update(x, s))
    } else {
        grid
    }
}

/// The grid with the cells of row `row` from column `from` up to, but not
/// including, column `to` showing `s`.
pub open spec fn with_run(grid: Grid, row: int, from: int, to: int, s: Seq<char>) -> Grid {
    Seq::new(
        grid.len(),
        |r: int|
            Seq::new(
                grid[r].len(),
                |c: int|
                    if r == row && from <= c < to {
                        s
                    } else {
                        grid[r][c]
                    },
            ),
    )
}

/// The grid with `text` written along row `row` from its first column on,
/// one character per cell.
pub open spec fn with_text(grid: Grid, row: int, text: Seq<char>) -> Grid {
    Seq::new(
        grid.len(),
        |r: int|
            Seq::new(
                grid[r].len(),
                |c: int|
                    if r == row && 0 <= c < text.len() {
                        seq![text[c]]
                    } else {
                        grid[r][c]
                    },
            ),
    )
}

/// The number of columns a boundary line spans: the playable area's width
/// and the window's padding on both sides.
pub open spec fn boundary_span(window: Container, area: Container) -> int {
    area.width() + window.padding_horizontal * 2
}

/// The grid with the boundary lines drawn along the playable area's top and
/// bottom rows.
pub open spec fn with_boundary(grid: Grid, window: Container, area: Container) -> Grid {
    with_run(
        with_run(grid, area.top.y as int, 0, boundary_span(window, area), dash()),
        area.bottom.y as int,
        0,
        boundary_span(window, area),
        dash(),
    )
}

/// The grid with the ship painted: its symbol in as many cells as the ship
/// is wide, from its leading edge on.
pub open spec fn with_ship(grid: Grid, ship: ShipView) -> Grid {
    with_run(
        grid,
        ship.obj.container.top.y as int,
        ship.obj.container.top.x as int,
        ship.obj.container.top.x + ship.obj.container.width(),
        ship.obj.symbol,
    )
}

/// The grid with the bullet painted, unless it is destroyed.
pub open spec fn with_bullet(grid: Grid, b: BulletView) -> Grid {
    if b.obj.destroyed {
        grid
    } else {
        put(grid, b.obj.container.top.x as int, b.obj.container.top.y as int, b.obj.symbol)
    }
}

/// The grid with the bullet of the slot painted, if there is one.
pub open spec fn with_slot(grid: Grid, slot: Option<BulletView>) -> Grid {
    match slot {
        Some(b) => with_bullet(grid, b),
        None => grid,
    }
}

/// The grid with the bullets painted in order.
pub open spec fn with_bullets(grid: Grid, bullets: Seq<BulletView>) -> Grid
    decreases bullets.len(),
{
    if bullets.len() == 0 {
        grid
    } else {
        with_bullet(with_bullets(grid, bullets.drop_last()), bullets.last())
    }
}

/// The grid with the enemy painted, unless it is destroyed.
pub open spec fn with_alien(grid: Grid, e: AlienView) -> Grid {
    if e.obj.destroyed {
        grid
    } else {
        put(grid, e.obj.pos().x as int, e.obj.pos().y as int, e.obj.symbol)
    }
}

/// The grid with the enemies painted in order.
pub open spec fn with_aliens(grid: Grid, enemies: Seq<AlienView>) -> Grid
    decreases enemies.len(),
{
    if enemies.len() == 0 {
        grid
    } else {
        with_alien(with_aliens(grid, enemies.drop_last()), enemies.last())
    }
}

/// The character of a digit.
pub open spec fn digit(d: int) -> char {
    if d == 0 {
        '0'
    } else if d == 1 {
        '1'
    } else if d == 2 {
        '2'
    } else if d == 3 {
        '3'
    } else if d == 4 {
        '4'
    } else if d == 5 {
        '5'
    } else if d == 6 {
        '6'
    } else if d == 7 {
        '7'
    } else if d == 8 {
        '8'
    } else {
        '9'
    }
}

/// A number written in decimal digits, without leading zeros.
pub open spec fn decimal(n: nat) -> Seq<char>
    decreases n,
{
    if n < 10 {
        seq![digit(n as int)]
    } else {
        decimal(n / 10).push(digit((n % 10) as int))
    }
}

/// The text before the score.
pub open spec fn score_label() -> Seq<char> {
    seq!['S', 'c', 'o', 'r', 'e', ':', ' ']
}

/// The text before the lives.
pub open spec fn lives_label() -> Seq<char> {
    seq!['L', 'i', 'v', 'e', 's', ':', ' ']
}

/// The header's left part.
pub open spec fn score_text(score: u64) -> Seq<char> {
    score_label() + decimal(score as nat)
}

/// The header's right part.
pub open spec fn lives_text(lives: usize) -> Seq<char> {
    lives_label() + decimal(lives as nat)
}

/// The cells that the header's two parts need together.
pub open spec fn header_len(score: u64, lives: usize) -> int {
    (score_text(score).len() + lives_text(lives).len()) as int
}

/// The header line: the score at the left end and the lives at the right
/// end of as many cells as the playable area is wide.
pub open spec fn header(score: u64, lives: usize, width: int) -> Seq<char> {
    score_text(score) + Seq::new((width - header_len(score, lives)) as nat, |i: int| ' ')
        + lives_text(lives)
}

/// The frame of a game on a grid of `rows` by `cols` cells.
pub open spec fn painted(rows: nat, cols: nat, window: Container, area: Container, g: GameView)
    -> Grid {
    let text = with_text(
        blank(rows, cols),
        area.top.y - 1,
        header(g.score, g.lives, area.width()),
    );
    let lines = with_boundary(text, window, area);
    let ship = with_ship(lines, g.ship);
    let shot = with_slot(ship, g.last_bullet);
    let enemies = with_aliens(shot, g.enemies);
    with_bullets(enemies, g.enemy_bullets)
}

/// Ten to the power of `k`.
pub open spec fn pow10(k: nat) -> nat
    decreases k,
{
    if k == 0 {
        1
    } else {
        10 * pow10((k - 1) as nat)
    }
}

/// A number below ten to the power of `k` is written in at most `k` digits.
pub proof fn lemma_decimal_len(n: nat, k: nat)
    requires
        k >= 1,
        n < pow10(k),
    ensures
        1 <= decimal(n).len() <= k,
    decreases k,
{
    if n >= 10 {
        if k == 1 {
            reveal_with_fuel(pow10, 2);
        } else {
            lemma_decimal_len(n / 10, (k - 1) as nat);
        }
    }
}

/// No number of 64 bits is written in more than twenty digits.
pub proof fn lemma_decimal_len_u64(n: u64)
    ensures
        1 <= decimal(n as nat).len() <= 20,
{
    assert(pow10(20) == 100000000000000000000) by {
        reveal_with_fuel(pow10, 21);
    }
    lemma_decimal_len(n as nat, 20);
}

/// The digit `d` as text.
fn digit_str(d: u64) -> (s: &'static str)
    requires
        d < 10,
    ensures
        s@ == seq![digit(d as int)],
{
    proof {
        reveal_strlit("0");
        reveal_strlit("1");
        reveal_strlit("2");
        reveal_strlit("3");
        reveal_strlit("4");
        reveal_strlit("5");
        reveal_strlit("6");
        reveal_strlit("7");
        reveal_strlit("8");
        reveal_strlit("9");
    }
    let s = if d == 0 {
        "0"
    } else if d == 1 {
        "1"
    } else if d == 2 {
        "2"
    } else if d == 3 {
        "3"
    } else if d == 4 {
        "4"
    } else if d == 5 {
        "5"
    } else if d == 6 {
        "6"
    } else if d == 7 {
        "7"
    } else if d == 8 {
        "8"
    } else {
        "9"
    };
    s
}

/// Writes `n` in decimal digits.
pub fn decimal_string(n: u64) -> (s: String)
    ensures
        s@ == decimal(n as nat),
    decreases n,
{
    if n < 10 {
        String::from_str(digit_str(n))
    } else {
        let mut s = decimal_string(n / 10);
        s.append(digit_str(n % 10));
        s
    }
}

/// The header's left part as text.
fn score_string(score: u64) -> (text: String)
    ensures
        text@ == score_text(score),
{
    proof {
        reveal_strlit("Score: ");
    }
    let mut text = String::from_str("Score: ");
    text.append(decimal_string(score).as_str());
    text
}

/// The header's right part as text.
fn lives_string(lives: usize) -> (text: String)
    ensures
        text@ == lives_text(lives),
{
    proof {
        reveal_strlit("Lives: ");
    }
    let mut text = String::from_str("Lives: ");
    text.append(decimal_string(lives as u64).as_str());
    text
}

/// The number of cells that the header's two parts need together.
pub fn header_width(score: u64, lives: usize) -> (needed: usize)
    ensures
        needed == header_len(score, lives),
{
    proof {
        lemma_decimal_len_u64(score);
        lemma_decimal_len_u64(lives as u64);
    }
    score_string(score).as_str().unicode_len() + lives_string(lives).as_str().unicode_len()
}

/// Whether the header's two parts fit into `width` cells.
pub fn fits_header(score: u64, lives: usize, width: usize) -> (ok: bool)
    ensures
        ok == (header_len(score, lives) <= width),
{
    header_width(score, lives) <= width
}

/// Writes the header line for a playable area that is `width` cells wide.
pub fn header_string(score: u64, lives: usize, width: usize) -> (text: String)
    requires
        header_len(score, lives) <= width,
    ensures
        text@ == header(score, lives, width as int),
        text@.len() == width,
{
    proof {
        reveal_strlit(" ");
    }
    let mut text = score_string(score);
    let lives_part = lives_string(lives);
    let total_len = text.as_str().unicode_len() + lives_part.as_str().unicode_len();
    let space_len = width - total_len;
    let mut i: usize = 0;
    while i < space_len
        invariant
            i <= space_len,
            " "@ == seq![' '],
            text@ == score_text(score) + Seq::new(i as nat, |k: int| ' '),
        decreases space_len - i,
    {
        text.append(" ");
        i += 1;
    }
    text.append(lives_part.as_str());
    text
}

/// Paints one cell, if the grid has it.
fn put_cell(grid: &mut Vec<Vec<String>>, x: usize, y: usize, s: &str)
    ensures
        grid_view(final(grid)@) == put(grid_view(old(grid)@), x as int, y as int, s@),
{
    if y < grid.len() {
        if x < grid[y].len() {
            grid[y][x] = s.to_owned();
            assert(grid_view(grid@) =~~= put(grid_view(old(grid)@), x as int, y as int, s@));
        }
    }
}

/// Paints the cells of one row from column `from` up to column `to`.
fn put_run(grid: &mut Vec<Vec<String>>, row: usize, from: usize, to: usize, s: &str)
    ensures
        grid_view(final(grid)@) == with_run(
            grid_view(old(grid)@),
            row as int,
            from as int,
            to as int,
            s@,
        ),
{
    let ghost before = grid_view(old(grid)@);
    let mut c: usize = from;
    assert(grid_view(grid@) =~~= with_run(before, row as int, from as int, from as int, s@));
    while c < to
        invariant
            before == grid_view(old(grid)@),
            from <= c,
            from < to ==> c <= to,
            from >= to ==> c == from,
            grid_view(grid@) == with_run(before, row as int, from as int, c as int, s@),
        decreases to - c,
    {
        let ghost prev = grid_view(grid@);
        put_cell(grid, c, row, s);
        assert(put(prev, c as int, row as int, s@) =~~= with_run(
            before,
            row as int,
            from as int,
            c + 1,
            s@,
        ));
        c += 1;
    }
    assert(with_run(before, row as int, from as int, c as int, s@) =~~= with_run(
        before,
        row as int,
        from as int,
        to as int,
        s@,
    ));
}

/// Writes `text` along one row, one character per cell.
fn put_text(grid: &mut Vec<Vec<String>>, row: usize, text: &str)
    ensures
        grid_view(final(grid)@) == with_text(grid_view(old(grid)@), row as int, text@),
{
    let ghost before = grid_view(old(grid)@);
    let len = text.unicode_len();
    let mut c: usize = 0;
    assert(grid_view(grid@) =~~= with_text(before, row as int, text@.take(0)));
    while c < len
        invariant
            before == grid_view(old(grid)@),
            len == text@.len(),
            c <= len,
            grid_view(grid@) == with_text(before, row as int, text@.take(c as int)),
        decreases len - c,
    {
        let ghost prev = grid_view(grid@);
        let glyph = text.substring_char(c, c + 1);
        put_cell(grid, c, row, glyph);
        assert(put(prev, c as int, row as int, glyph@) =~~= with_text(
            before,
            row as int,
            text@.take(c + 1),
        ));
        c += 1;
    }
    assert(text@.take(c as int) =~= text@);
}

/// A grid of `rows` by `cols` empty cells.
fn blank_grid(rows: usize, cols: usize) -> (grid: Vec<Vec<String>>)
    ensures
        grid_view(grid@) == blank(rows as nat, cols as nat),
{
    proof {
        reveal_strlit(" ");
    }
    let mut grid: Vec<Vec<String>> = Vec::new();
    let mut r: usize = 0;
    while r < rows
        invariant
            r <= rows,
            " "@ == space(),
            grid_view(grid@) == blank(r as nat, cols as nat),
        decreases rows - r,
    {
        let mut row: Vec<String> = Vec::new();
        let mut c: usize = 0;
        while c < cols
            invariant
                c <= cols,
                " "@ == space(),
                row_view(row) == Seq::new(c as nat, |k: int| space()),
            decreases cols - c,
        {
            let ghost cells = row_view(row);
            let cell = String::from_str(" ");
            row.push(cell);
            assert(row_view(row) =~= cells.push(space()));
            c += 1;
        }
        let ghost done = grid_view(grid@);
        let ghost cells = row_view(row);
        grid.push(row);
        assert(done.push(cells) =~~= blank((r + 1) as nat, cols as nat));
        r += 1;
    }
    grid
}

/// Paints the enemies in order.
fn put_aliens(grid: &mut Vec<Vec<String>>, enemies: &Vec<SmallAlien>)
    ensures
        grid_view(final(grid)@) == with_aliens(grid_view(old(grid)@), aliens_view(enemies@)),
{
    let ghost before = grid_view(old(grid)@);
    let ghost all = aliens_view(enemies@);
    let mut i: usize = 0;
    while i < enemies.len()
        invariant
            before == grid_view(old(grid)@),
            all == aliens_view(enemies@),
            i <= enemies.len(),
            grid_view(grid@) == with_aliens(before, all.take(i as int)),
        decreases enemies.len() - i,
    {
        proof {
            assert(all.take(i + 1).drop_last() =~= all.take(i as int));
        }
        let e = &enemies[i];
        if !e.is_destroyed() {
            let pos = e.get_pos();
            put_cell(grid, pos.x, pos.y, e.get_symbol());
        }
        i += 1;
    }
    assert(all.take(i as int) =~= all);
}

/// Paints one bullet, unless it is destroyed.
fn put_bullet(grid: &mut Vec<Vec<String>>, b: &Bullet)
    ensures
        grid_view(final(grid)@) == with_bullet(grid_view(old(grid)@), b@),
{
    if b.is_destroyed() {
        return ;
    }
    let container = b.get_container();
    put_cell(grid, container.top.x, container.top.y, b.get_symbol());
}

/// Paints the bullets in order.
fn put_bullets(grid: &mut Vec<Vec<String>>, bullets: &Vec<Bullet>)
    ensures
        grid_view(final(grid)@) == with_bullets(grid_view(old(grid)@), bullets_view(bullets@)),
{
    let ghost before = grid_view(old(grid)@);
    let ghost all = bullets_view(bullets@);
    let mut i: usize = 0;
    while i < bullets.len()
        invariant
            before == grid_view(old(grid)@),
            all == bullets_view(bullets@),
            i <= bullets.len(),
            grid_view(grid@) == with_bullets(before, all.take(i as int)),
        decreases bullets.len() - i,
    {
        proof {
            assert(all.take(i + 1).drop_last() =~= all.take(i as int));
        }
        put_bullet(grid, &bullets[i]);
        i += 1;
    }
    assert(all.take(i as int) =~= all);
}

/// A grid of text cells with the geometry of the window it stands for.
pub struct GameBuffer {
    grid: Vec<Vec<String>>,
    rows: usize,
    cols: usize,
    ship_length: usize,
    ship_current_box: Option<Container>,
    playable_area: Container,
    window: Container,
}

impl View for GameBuffer {
    type V = Grid;

    closed spec fn view(&self) -> Grid {
        grid_view(self.grid@)
    }
}

impl GameBuffer {
    /// The number of rows.
    pub closed spec fn rows(&self) -> usize {
        self.rows
    }

    /// The number of columns.
    pub closed spec fn cols(&self) -> usize {
        self.cols
    }

    /// The playable area that the boundary lines and the header go by.
    pub closed spec fn area(&self) -> Container {
        self.playable_area
    }

    /// The window that the grid stands for.
    pub closed spec fn window(&self) -> Container {
        self.window
    }

    /// The ship's box, where one was recorded.
    pub closed spec fn ship_box(&self) -> Option<Container> {
        self.ship_current_box
    }

    /// The grid has a cell for every cell of the window, and the window and
    /// its playable area are as an engine builds them.
    pub closed spec fn wf(&self) -> bool {
        &&& has_shape(self@, self.rows as nat, self.cols as nat)
        &&& window_fits(self.cols, self.rows)
        &&& self.window == window_of(self.cols, self.rows)
        &&& self.playable_area == playable_area_of(self.cols, self.rows)
        &&& self.ship_length == SHIP_LENGTH
    }

    /// The frame of the game `g` on this buffer's grid.
    pub open spec fn frame(&self, g: GameView) -> Grid {
        painted(self.rows() as nat, self.cols() as nat, self.window(), self.area(), g)
    }

    /// Whether the game's header fits into the game's playable area, so
    /// that a grid can be made for the game.
    pub fn can_hold(game: &Game) -> (ok: bool)
        requires
            game@.wf(),
        ensures
            ok == (header_len(game@.score, game@.lives) <= game@.playable_area.width()),
    {
        fits_header(game.get_score(), game.get_lives(), game.get_playablearea().get_width())
    }

    /// Whether the game's header fits into this grid's playable area, so
    /// that the game can be painted.
    pub fn can_draw(&self, game: &Game) -> (ok: bool)
        requires
            self.wf(),
        ensures
            ok == (header_len(game@.score, game@.lives) <= self.area().width()),
    {
        fits_header(game.get_score(), game.get_lives(), self.playable_area.get_width())
    }

    /// The grid for the game's window, with the header and the boundary
    /// lines drawn. The header has to fit.
    pub fn new(game: &Game) -> (buffer: GameBuffer)
        requires
            game@.wf(),
            header_len(game@.score, game@.lives) <= game@.playable_area.width(),
        ensures
            buffer.wf(),
            buffer.window() == game@.window,
            buffer.area() == game@.playable_area,
            buffer.rows() == game@.window.height(),
            buffer.cols() == game@.window.width(),
            buffer.ship_box() is None,
            buffer@ == with_boundary(
                with_text(
                    blank(buffer.rows() as nat, buffer.cols() as nat),
                    game@.playable_area.top.y - 1,
                    header(game@.score, game@.lives, game@.playable_area.width()),
                ),
                game@.window,
                game@.playable_area,
            ),
    {
        let window = game.get_window();
        let playable_area = game.get_playablearea();
        let rows = window.get_height();
        let cols = window.get_width();
        let mut game_buffer = GameBuffer {
            grid: blank_grid(rows, cols),
            rows,
            cols,
            ship_length: SHIP_LENGTH,
            ship_current_box: None,
            playable_area,
            window,
        };
        game_buffer.draw_text(game);
        game_buffer.draw_boundary();
        game_buffer
    }

    /// Empties every cell.
    pub fn clear(&mut self)
        requires
            old(self).wf(),
        ensures
            final(self)@ == blank(old(self).rows() as nat, old(self).cols() as nat),
            final(self).wf(),
            final(self).same_geometry(old(self)),
    {
        self.grid = blank_grid(self.rows, self.cols);
    }

    /// The two buffers stand for the same window.
    pub open spec fn same_geometry(&self, other: &GameBuffer) -> bool {
        &&& self.rows() == other.rows()
        &&& self.cols() == other.cols()
        &&& self.window() == other.window()
        &&& self.area() == other.area()
        &&& self.ship_box() == other.ship_box()
    }

    pub fn get_cols(&self) -> (cols: usize)
        ensures
            cols == self.cols(),
    {
        self.cols
    }

    pub fn get_rows(&self) -> (rows: usize)
        ensures
            rows == self.rows(),
    {
        self.rows
    }

    pub fn get_buffer(&self) -> (grid: &Vec<Vec<String>>)
        ensures
            grid_view(grid@) == self@,
    {
        &self.grid
    }

    /// The columns between which a ship's leading edge can lie for the ship
    /// to be painted whole.
    pub fn get_ship_boundary(&self) -> (ends: (usize, usize))
        requires
            self.wf(),
        ensures
            ends.0 == 0,
            ends.1 == self.cols() - 1 - SHIP_LENGTH,
    {
        let start: usize = 0;
        let end = self.get_cols() - 1 - self.ship_length;
        (start, end)
    }

    pub fn get_ship_box(&self) -> (ship_box: Option<Container>)
        ensures
            ship_box == self.ship_box(),
    {
        self.ship_current_box
    }

    /// Draws the boundary lines along the playable area's top and bottom
    /// rows.
    pub fn draw_boundary(&mut self)
        requires
            old(self).wf(),
        ensures
            final(self)@ == with_boundary(old(self)@, old(self).window(), old(self).area()),
            final(self).wf(),
            final(self).same_geometry(old(self)),
    {
        proof {
            reveal_strlit("-");
            assert("-"@ =~= dash());
        }
        let span = self.playable_area.get_width() + self.window.padding_horizontal * 2;
        put_run(&mut self.grid, self.playable_area.top.y, 0, span, "-");
        put_run(&mut self.grid, self.playable_area.bottom.y, 0, span, "-");
    }

    /// Writes the header line into the row above the playable area: the
    /// score at the left, the lives at the right, spaces between them. The
    /// two have to fit into the playable area's width: nothing is cut off.
    pub fn draw_text(&mut self, game: &Game)
        requires
            old(self).wf(),
            header_len(game@.score, game@.lives) <= old(self).area().width(),
        ensures
            final(self).wf(),
            final(self).same_geometry(old(self)),
            final(self)@ == with_text(
                old(self)@,
                old(self).area().top.y - 1,
                header(game@.score, game@.lives, old(self).area().width()),
            ),
    {
        let width = self.playable_area.get_width();
        let game_display_text = header_string(game.get_score(), game.get_lives(), width);
        let display_row_index = self.playable_area.top.y - 1;
        put_text(&mut self.grid, display_row_index, game_display_text.as_str());
    }

    /// Paints the ship.
    fn draw_ship(&mut self, game: &Game)
        requires
            old(self).wf(),
            game@.wf(),
        ensures
            final(self)@ == with_ship(old(self)@, game@.ship),
            final(self).wf(),
            final(self).same_geometry(old(self)),
    {
        let ship = game.get_ship();
        let ship_container = ship.get_container();
        let end = ship_container.top.x + ship.get_width();
        put_run(&mut self.grid, ship_container.top.y, ship_container.top.x, end, ship.get_symbol());
    }

    /// Paints the ship's bullet.
    fn draw_bullet(&mut self, game: &Game)
        requires
            old(self).wf(),
        ensures
            final(self)@ == with_slot(old(self)@, game@.last_bullet),
            final(self).wf(),
            final(self).same_geometry(old(self)),
    {
        match game.get_bullet() {
            Some(b) => {
                put_bullet(&mut self.grid, b);
            },
            None => {},
        }
    }

    /// Paints the enemy bullets.
    fn draw_enemy_bullet(&mut self, game: &Game)
        requires
            old(self).wf(),
        ensures
            final(self)@ == with_bullets(old(self)@, game@.enemy_bullets),
            final(self).wf(),
            final(self).same_geometry(old(self)),
    {
        put_bullets(&mut self.grid, game.get_enemy_bullets());
        proof {
            lemma_bullets_keep_shape(
                old(self)@,
                game@.enemy_bullets,
                self.rows as nat,
                self.cols as nat,
            );
        }
    }

    /// Paints the enemies.
    fn draw_enemies(&mut self, game: &Game)
        requires
            old(self).wf(),
        ensures
            final(self)@ == with_aliens(old(self)@, game@.enemies),
            final(self).wf(),
            final(self).same_geometry(old(self)),
    {
        put_aliens(&mut self.grid, game.get_enemies());
        proof {
            lemma_aliens_keep_shape(old(self)@, game@.enemies, self.rows as nat, self.cols as nat);
        }
    }

    /// Paints the frame of the game. The game's header has to fit.
    pub fn draw(&mut self, game: &Game)
        requires
            old(self).wf(),
            game@.wf(),
            header_len(game@.score, game@.lives) <= old(self).area().width(),
        ensures
            final(self).wf(),
            final(self).same_geometry(old(self)),
            final(self)@ == old(self).frame(game@),
    {
        self.clear();
        self.draw_text(game);
        self.draw_boundary();
        self.draw_ship(game);
        self.draw_bullet(game);
        self.draw_enemies(game);
        self.draw_enemy_bullet(game);
    }
}

/// Painting enemies keeps the grid's shape.
pub proof fn lemma_aliens_keep_shape(grid: Grid, enemies: Seq<AlienView>, rows: nat, cols: nat)
    requires
        has_shape(grid, rows, cols),
    ensures
        has_shape(with_aliens(grid, enemies), rows, cols),
    decreases enemies.len(),
{
    if enemies.len() > 0 {
        lemma_aliens_keep_shape(grid, enemies.drop_last(), rows, cols);
    }
}

/// Painting bullets keeps the grid's shape.
pub proof fn lemma_bullets_keep_shape(grid: Grid, bullets: Seq<BulletView>, rows: nat, cols: nat)
    requires
        has_shape(grid, rows, cols),
    ensures
        has_shape(with_bullets(grid, bullets), rows, cols),
    decreases bullets.len(),
{
    if bullets.len() > 0 {
        lemma_bullets_keep_shape(grid, bullets.drop_last(), rows, cols);
    }
}

} // verus!
