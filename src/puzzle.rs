//! Packing of a level drawn as text into the binary map format.
//!
//! A level is drawn in 19 rows of 61 characters. Even rows draw the top
//! walls of a row of cells with `─` over each cell's four columns; the last
//! row closes the drawing and must match the first. Odd rows draw a row of
//! cells, five characters each: a left wall `│` or blank, a walker `M` or
//! `C` with a direction glyph, or `R`/`H` and a blank, then `A` with a
//! direction glyph for an arrow. Direction glyphs are `^`, `v`, `<`, `>`.
use vstd::prelude::*;
use vstd::string::*;

use crate::direction::Direction;
use crate::tile_type::TileType;
use crate::walker::{Walker, WalkerType};
use crate::walker_list::walkers_of;
use crate::map_format::{
    cell_index, entity_direction_of, fresh_walker, in_grid, lemma_single_bits,
    lemma_wall_slots_distinct, loaded_tiles, loaded_walkers, stored_wall, tile_of_entity,
    walker_kind_of, wall_bit, wall_owner, ARROW_PRESENT_MASK, ENTITY_BLOCK_OFFSET,
    ENTITY_TYPE_CAT, ENTITY_TYPE_EMPTY, ENTITY_TYPE_HOLE, ENTITY_TYPE_MOUSE, ENTITY_TYPE_ROCKET,
    MAP_SIZE, MAX_TILES, WORLD_HEIGHT, WORLD_WIDTH,
};
use crate::world::World;

verus! {

/// Rows in a drawn level.
pub const BODY_ROWS: usize = 19;

/// Characters in each row of a drawn level.
pub const ROW_CHARS: usize = 61;

/// Bytes reserved for the map's name, and again for its author.
pub const NAME_SIZE: usize = 32;

/// Why a drawn level cannot be packed.
#[derive(Copy, Clone, PartialEq, Eq, Debug, Structural)]
pub enum PuzzleError {
    /// The name or the author is empty.
    EmptyString,
    /// The name or the author is longer than 32 bytes.
    StringTooLong,
    /// The drawing does not have 19 rows.
    WrongRowCount,
    /// A row is not 61 characters long.
    WrongLineLength,
    /// The first and last rows disagree on a top wall.
    InconsistentTopBottom,
    /// The top-wall glyphs over one cell differ.
    InconsistentCellTop,
    /// A cell row starts and ends with different glyphs.
    InconsistentLeftRight,
    /// A top wall is neither `─` nor blank.
    BadTopWall,
    /// A left wall is neither `│` nor blank.
    BadLeftWall,
    /// An arrow is neither `A` with a direction glyph nor blank.
    BadArrowCell,
    /// A cell's entity is not a walker with a direction glyph, a rocket or
    /// hole followed by a blank, or blank.
    BadTileCell,
}

/// Whether a row passes check number `check`: the agreement of top glyphs
/// within cells (0), of the two ends (1), the top walls (2), the left walls
/// (3), the arrows (4) or the entities (5).
pub open spec fn row_passes(row: Seq<char>, check: u8) -> bool {
    if check == 0 {
        cell_tops_agree(row)
    } else if check == 1 {
        row[60] == row[0]
    } else if check == 2 {
        top_walls_ok(row)
    } else if check == 3 {
        left_walls_ok(row)
    } else if check == 4 {
        arrows_ok(row)
    } else {
        tiles_ok(row)
    }
}

/// Row `k` of the wall rows (`odd` false) or of the cell rows (`odd` true).
pub open spec fn drawn_row(t: Seq<Seq<char>>, k: int, odd: bool) -> Seq<char> {
    if odd {
        t[2 * k + 1]
    } else {
        t[2 * k]
    }
}

/// Whether `c` is a direction glyph.
pub open spec fn is_direction_glyph(c: char) -> bool {
    c == '^' || c == 'v' || c == '<' || c == '>'
}

/// The two-bit code of a direction glyph: up 0, down 1, left 2, right 3.
pub open spec fn glyph_code(c: char) -> u8 {
    if c == '^' {
        0
    } else if c == 'v' {
        1
    } else if c == '<' {
        2
    } else {
        3
    }
}

/// The direction a glyph stands for.
pub open spec fn glyph_direction(c: char) -> Direction {
    if c == '^' {
        Direction::Up
    } else if c == 'v' {
        Direction::Down
    } else if c == '<' {
        Direction::Left
    } else {
        Direction::Right
    }
}

/// Whether the two characters of a cell's arrow are well formed.
pub open spec fn arrow_glyphs_ok(a: char, b: char) -> bool {
    (a == 'A' && is_direction_glyph(b)) || (a == ' ' && b == ' ')
}

/// Whether the two characters of a cell's entity are well formed.
pub open spec fn tile_glyphs_ok(a: char, b: char) -> bool {
    ((a == 'M' || a == 'C') && is_direction_glyph(b)) || ((a == 'R' || a == 'H') && b == ' ') || (a
        == ' ' && b == ' ')
}

/// Whether the top-wall glyphs over each cell of a wall row agree.
pub open spec fn cell_tops_agree(row: Seq<char>) -> bool {
    forall|c: int, j: int| 0 <= c < WORLD_WIDTH && 1 <= j < 5 ==> #[trigger] row[5 * c + j] == row[5 * c + 1]
}

/// Whether every top wall of a wall row is `─` or blank.
pub open spec fn top_walls_ok(row: Seq<char>) -> bool {
    forall|c: int| 0 <= c < WORLD_WIDTH ==> #[trigger] row[5 * c + 1] == '─' || row[5 * c + 1] == ' '
}

/// Whether every left wall of a cell row is `│` or blank.
pub open spec fn left_walls_ok(row: Seq<char>) -> bool {
    forall|c: int| 0 <= c < WORLD_WIDTH ==> #[trigger] row[5 * c] == '│' || row[5 * c] == ' '
}

/// Whether every arrow of a cell row is well formed.
pub open spec fn arrows_ok(row: Seq<char>) -> bool {
    forall|c: int| 0 <= c < WORLD_WIDTH ==> #[trigger] arrow_glyphs_ok(row[5 * c + 3], row[5 * c + 4])
}

/// Whether every entity of a cell row is well formed.
pub open spec fn tiles_ok(row: Seq<char>) -> bool {
    forall|c: int| 0 <= c < WORLD_WIDTH ==> #[trigger] tile_glyphs_ok(row[5 * c + 1], row[5 * c + 2])
}

/// The rows of a drawing as character sequences.
pub open spec fn drawing(body: Seq<&str>) -> Seq<Seq<char>> {
    body.map_values(|s: &str| s@)
}

/// The first problem found in a drawn level, checked in this order: name,
/// author, number of rows, row lengths, top against bottom row, then over
/// all rows in turn each check of `row_passes`: top glyphs within cells, the
/// two ends of cell rows, top walls, left walls, arrows, entities. `None` if
/// there is none.
pub open spec fn puzzle_problem(name: Seq<u8>, author: Seq<u8>, t: Seq<Seq<char>>) -> Option<PuzzleError> {
    if name.len() == 0 {
        Some(PuzzleError::EmptyString)
    } else if name.len() > NAME_SIZE {
        Some(PuzzleError::StringTooLong)
    } else if author.len() == 0 {
        Some(PuzzleError::EmptyString)
    } else if author.len() > NAME_SIZE {
        Some(PuzzleError::StringTooLong)
    } else if t.len() != BODY_ROWS {
        Some(PuzzleError::WrongRowCount)
    } else if exists|r: int| 0 <= r < BODY_ROWS && #[trigger] t[r].len() != ROW_CHARS {
        Some(PuzzleError::WrongLineLength)
    } else if exists|c: int| 0 <= c < WORLD_WIDTH && #[trigger] t[0][5 * c + 1] != t[18][5 * c + 1] {
        Some(PuzzleError::InconsistentTopBottom)
    } else if exists|k: int| 0 <= k < WORLD_HEIGHT && !#[trigger] row_passes(drawn_row(t, k, false), 0) {
        Some(PuzzleError::InconsistentCellTop)
    } else if exists|k: int| 0 <= k < WORLD_HEIGHT && !#[trigger] row_passes(drawn_row(t, k, true), 1) {
        Some(PuzzleError::InconsistentLeftRight)
    } else if exists|k: int| 0 <= k < WORLD_HEIGHT && !#[trigger] row_passes(drawn_row(t, k, false), 2) {
        Some(PuzzleError::BadTopWall)
    } else if exists|k: int| 0 <= k < WORLD_HEIGHT && !#[trigger] row_passes(drawn_row(t, k, true), 3) {
        Some(PuzzleError::BadLeftWall)
    } else if exists|k: int| 0 <= k < WORLD_HEIGHT && !#[trigger] row_passes(drawn_row(t, k, true), 4) {
        Some(PuzzleError::BadArrowCell)
    } else if exists|k: int| 0 <= k < WORLD_HEIGHT && !#[trigger] row_passes(drawn_row(t, k, true), 5) {
        Some(PuzzleError::BadTileCell)
    } else {
        None
    }
}

/// Whether the drawing has a wall on the top (`top`) or left edge of cell
/// `(x, y)`.
pub open spec fn drawn_wall(t: Seq<Seq<char>>, x: int, y: int, top: bool) -> bool {
    if top {
        t[2 * y][5 * x + 1] == '─'
    } else {
        t[2 * y + 1][5 * x] == '│'
    }
}

/// The entity bits of a cell whose entity glyphs are `a`, `b`.
pub open spec fn entity_code(a: char, b: char) -> u8 {
    if a == 'M' {
        ENTITY_TYPE_MOUSE | (glyph_code(b) << 3u8)
    } else if a == 'C' {
        ENTITY_TYPE_CAT | (glyph_code(b) << 3u8)
    } else if a == 'R' {
        ENTITY_TYPE_ROCKET
    } else if a == 'H' {
        ENTITY_TYPE_HOLE
    } else {
        ENTITY_TYPE_EMPTY
    }
}

/// The arrow bits of a cell whose arrow glyphs are `a`, `b`.
pub open spec fn arrow_code(a: char, b: char) -> u8 {
    if a == 'A' {
        ARROW_PRESENT_MASK | glyph_code(b)
    } else {
        0
    }
}

/// The entity byte of cell `(x, y)` of a drawing.
pub open spec fn drawn_cell_code(t: Seq<Seq<char>>, x: int, y: int) -> u8 {
    let row = t[2 * y + 1];
    entity_code(row[5 * x + 1], row[5 * x + 2]) | arrow_code(row[5 * x + 3], row[5 * x + 4])
}

/// Byte `i` of a header field holding `s`, padded with zeros.
pub open spec fn padded(s: Seq<u8>, i: int) -> u8 {
    if i < s.len() {
        s[i]
    } else {
        0
    }
}

/// Whether `bytes` is the packed map of the drawing `t` named `name` by
/// `author`: the header holds both strings zero-padded, each wall bit is set
/// exactly where the drawing has that wall, and each entity byte encodes the
/// cell's entity and arrow.
pub open spec fn packs(bytes: Seq<u8>, name: Seq<u8>, author: Seq<u8>, t: Seq<Seq<char>>) -> bool {
    &&& bytes.len() == MAP_SIZE
    &&& forall|i: int| 0 <= i < NAME_SIZE ==> #[trigger] bytes[i] == padded(name, i)
    &&& forall|i: int| 0 <= i < NAME_SIZE ==> #[trigger] bytes[NAME_SIZE + i] == padded(author, i)
    &&& forall|x: int, y: int, top: bool|
        in_grid(x, y) ==> #[trigger] stored_wall(bytes, x, y, top) == drawn_wall(t, x, y, top)
    &&& forall|i: int|
        0 <= i < MAX_TILES ==> #[trigger] bytes[ENTITY_BLOCK_OFFSET + i] == drawn_cell_code(
            t,
            i % (WORLD_WIDTH as int),
            i / (WORLD_WIDTH as int),
        )
}


fn rows_sized(body: &Vec<&str>) -> (r: bool)
    requires
        body@.len() == BODY_ROWS,
    ensures
        r == forall|k: int| 0 <= k < BODY_ROWS ==> #[trigger] drawing(body@)[k].len() == ROW_CHARS,
{
    let mut k: usize = 0;
    while k < BODY_ROWS
        invariant
            k <= BODY_ROWS,
            body@.len() == BODY_ROWS,
            forall|k2: int| 0 <= k2 < k ==> #[trigger] drawing(body@)[k2].len() == ROW_CHARS,
        decreases BODY_ROWS - k,
    {
        if body[k].unicode_len() != ROW_CHARS {
            assert(drawing(body@)[k as int].len() != ROW_CHARS);
            return false;
        }
        k += 1;
    }
    true
}

fn top_matches_bottom(body: &Vec<&str>) -> (r: bool)
    requires
        body@.len() == BODY_ROWS,
        forall|k: int| 0 <= k < BODY_ROWS ==> #[trigger] drawing(body@)[k].len() == ROW_CHARS,
    ensures
        r == !exists|c: int| 0 <= c < WORLD_WIDTH && #[trigger] drawing(body@)[0][5 * c + 1] != drawing(body@)[18][5 * c + 1],
{
    let ghost t = drawing(body@);
    assert(t[0].len() == ROW_CHARS && t[18].len() == ROW_CHARS);
    let mut c: usize = 0;
    while c < WORLD_WIDTH
        invariant
            c <= WORLD_WIDTH,
            t == drawing(body@),
            body@.len() == BODY_ROWS,
            t[0].len() == ROW_CHARS,
            t[18].len() == ROW_CHARS,
            forall|c2: int| 0 <= c2 < c ==> #[trigger] t[0][5 * c2 + 1] == t[18][5 * c2 + 1],
        decreases WORLD_WIDTH - c,
    {
        if body[0].get_char(5 * c + 1) != body[18].get_char(5 * c + 1) {
            assert(t[0][5 * c + 1] != t[18][5 * c + 1]);
            return false;
        }
        c += 1;
    }
    true
}

/// Whether every wall row (`odd` false) or cell row (`odd` true) passes
/// check number `check`.
fn rows_pass(body: &Vec<&str>, odd: bool, check: u8) -> (r: bool)
    requires
        body@.len() == BODY_ROWS,
        forall|k: int| 0 <= k < BODY_ROWS ==> #[trigger] drawing(body@)[k].len() == ROW_CHARS,
        check < 6,
    ensures
        r == forall|k: int| 0 <= k < WORLD_HEIGHT ==> #[trigger] row_passes(drawn_row(drawing(body@), k, odd), check),
{
    let ghost t = drawing(body@);
    let mut k: usize = 0;
    while k < WORLD_HEIGHT
        invariant
            k <= WORLD_HEIGHT,
            t == drawing(body@),
            body@.len() == BODY_ROWS,
            forall|k2: int| 0 <= k2 < BODY_ROWS ==> #[trigger] t[k2].len() == ROW_CHARS,
            forall|k2: int| 0 <= k2 < k ==> #[trigger] row_passes(drawn_row(t, k2, odd), check),
        decreases WORLD_HEIGHT - k,
    {
        let index = if odd {
            2 * k + 1
        } else {
            2 * k
        };
        let row = body[index];
        assert(row@ == t[index as int]);
        let ok = if check == 0 {
            cell_tops_agree_exec(row)
        } else if check == 1 {
            row.get_char(60) == row.get_char(0)
        } else if check == 2 {
            top_walls_ok_exec(row)
        } else if check == 3 {
            left_walls_ok_exec(row)
        } else if check == 4 {
            arrows_ok_exec(row)
        } else {
            tiles_ok_exec(row)
        };
        if !ok {
            assert(!row_passes(drawn_row(t, k as int, odd), check));
            return false;
        }
        k += 1;
    }
    true
}

fn entity_code_exec(a: char, b: char) -> (r: u8)
    ensures
        r == entity_code(a, b),
{
    if a == 'M' {
        ENTITY_TYPE_MOUSE | (glyph_code_exec(b) << 3u8)
    } else if a == 'C' {
        ENTITY_TYPE_CAT | (glyph_code_exec(b) << 3u8)
    } else if a == 'R' {
        ENTITY_TYPE_ROCKET
    } else if a == 'H' {
        ENTITY_TYPE_HOLE
    } else {
        ENTITY_TYPE_EMPTY
    }
}

fn arrow_code_exec(a: char, b: char) -> (r: u8)
    ensures
        r == arrow_code(a, b),
{
    if a == 'A' {
        ARROW_PRESENT_MASK | glyph_code_exec(b)
    } else {
        0
    }
}

/// Packs a level drawn as text, named `name` by `author`, into the binary
/// map format. Fails with the first problem found in the drawing, checking
/// in the order `puzzle_problem` gives.
pub fn puzzle(name: &str, author: &str, body: &Vec<&str>) -> (r: Result<[u8; 199], PuzzleError>)
    ensures
        match r {
            Ok(bytes) => puzzle_problem(name.spec_bytes(), author.spec_bytes(), drawing(body@)) is None
                && packs(bytes@, name.spec_bytes(), author.spec_bytes(), drawing(body@)),
            Err(e) => puzzle_problem(name.spec_bytes(), author.spec_bytes(), drawing(body@)) == Some(e),
        },
{
    let ghost t = drawing(body@);
    let name_bytes = name.as_bytes();
    let author_bytes = author.as_bytes();
    if name_bytes.len() == 0 {
        return Err(PuzzleError::EmptyString);
    }
    if name_bytes.len() > NAME_SIZE {
        return Err(PuzzleError::StringTooLong);
    }
    if author_bytes.len() == 0 {
        return Err(PuzzleError::EmptyString);
    }
    if author_bytes.len() > NAME_SIZE {
        return Err(PuzzleError::StringTooLong);
    }
    if body.len() != BODY_ROWS {
        return Err(PuzzleError::WrongRowCount);
    }
    if !rows_sized(body) {
        return Err(PuzzleError::WrongLineLength);
    }
    if !top_matches_bottom(body) {
        return Err(PuzzleError::InconsistentTopBottom);
    }
    if !rows_pass(body, false, 0) {
        return Err(PuzzleError::InconsistentCellTop);
    }
    if !rows_pass(body, true, 1) {
        return Err(PuzzleError::InconsistentLeftRight);
    }
    if !rows_pass(body, false, 2) {
        return Err(PuzzleError::BadTopWall);
    }
    if !rows_pass(body, true, 3) {
        return Err(PuzzleError::BadLeftWall);
    }
    if !rows_pass(body, true, 4) {
        return Err(PuzzleError::BadArrowCell);
    }
    if !rows_pass(body, true, 5) {
        return Err(PuzzleError::BadTileCell);
    }
    let mut out = [0u8; 199];
    let mut i: usize = 0;
    while i < name_bytes.len()
        invariant
            i <= name_bytes@.len() <= NAME_SIZE,
            out@.len() == MAP_SIZE,
            forall|j: int| 0 <= j < i ==> #[trigger] out@[j] == name_bytes@[j],
            forall|j: int| i <= j < MAP_SIZE ==> #[trigger] out@[j] == 0,
        decreases name_bytes.len() - i,
    {
        out[i] = name_bytes[i];
        i += 1;
    }
    let mut i: usize = 0;
    while i < author_bytes.len()
        invariant
            i <= author_bytes@.len() <= NAME_SIZE,
            name_bytes@.len() <= NAME_SIZE,
            out@.len() == MAP_SIZE,
            forall|j: int| 0 <= j < NAME_SIZE ==> #[trigger] out@[j] == padded(name_bytes@, j),
            forall|j: int| 0 <= j < i ==> #[trigger] out@[NAME_SIZE + j] == author_bytes@[j],
            forall|j: int| NAME_SIZE + i <= j < MAP_SIZE ==> #[trigger] out@[j] == 0,
        decreases author_bytes.len() - i,
    {
        out[NAME_SIZE + i] = author_bytes[i];
        i += 1;
    }
    assert forall|x: int, y: int, top: bool| in_grid(x, y) implies !#[trigger] stored_wall(out@, x, y, top) by {
        lemma_wall_slots_distinct(x, y, top, x, y, top);
        lemma_single_bits(0, 0, wall_bit(x, top) as u8);
    }
    let mut i: usize = 0;
    while i < MAX_TILES
        invariant
            i <= MAX_TILES,
            t == drawing(body@),
            body@.len() == BODY_ROWS,
            forall|k: int| 0 <= k < BODY_ROWS ==> #[trigger] t[k].len() == ROW_CHARS,
            out@.len() == MAP_SIZE,
            forall|j: int| 0 <= j < NAME_SIZE ==> #[trigger] out@[j] == padded(name_bytes@, j),
            forall|j: int| 0 <= j < NAME_SIZE ==> #[trigger] out@[NAME_SIZE + j] == padded(author_bytes@, j),
            forall|x: int, y: int, top: bool|
                in_grid(x, y) ==> #[trigger] stored_wall(out@, x, y, top) == (cell_index(x, y) < i
                    && drawn_wall(t, x, y, top)),
            forall|j: int|
                0 <= j < i ==> #[trigger] out@[ENTITY_BLOCK_OFFSET + j] == drawn_cell_code(
                    t,
                    j % (WORLD_WIDTH as int),
                    j / (WORLD_WIDTH as int),
                ),
        decreases MAX_TILES - i,
    {
        let x = i % WORLD_WIDTH;
        let y = i / WORLD_WIDTH;
        assert(cell_index(x as int, y as int) == i);
        let wall_row = body[2 * y];
        let cell_row = body[2 * y + 1];
        assert(wall_row@ == t[2 * y as int] && cell_row@ == t[2 * y + 1]);
        let ghost before = out@;
        if wall_row.get_char(5 * x + 1) == '─' {
            World::write_wall(&mut out, x, y, Direction::Up, true);
        }
        let ghost middle = out@;
        if cell_row.get_char(5 * x) == '│' {
            World::write_wall(&mut out, x, y, Direction::Left, true);
        }
        proof {
            lemma_wall_slots_distinct(x as int, y as int, true, x as int, y as int, true);
            lemma_wall_slots_distinct(x as int, y as int, false, x as int, y as int, false);
            assert forall|cx: int, cy: int, top: bool|
                in_grid(cx, cy) implies #[trigger] stored_wall(out@, cx, cy, top) == (cell_index(cx, cy) < i + 1
                    && drawn_wall(t, cx, cy, top)) by {
                assert(stored_wall(before, cx, cy, top) == (cell_index(cx, cy) < i && drawn_wall(t, cx, cy, top)));
                if (cx, cy) == (x as int, y as int) {
                } else {
                    assert(cell_index(cx, cy) != i);
                }
            }
        }
        let code = entity_code_exec(cell_row.get_char(5 * x + 1), cell_row.get_char(5 * x + 2))
            | arrow_code_exec(cell_row.get_char(5 * x + 3), cell_row.get_char(5 * x + 4));
        let ghost before_code = out@;
        out[ENTITY_BLOCK_OFFSET + i] = code;
        proof {
            assert forall|cx: int, cy: int, top: bool|
                in_grid(cx, cy) implies #[trigger] stored_wall(out@, cx, cy, top) == stored_wall(before_code, cx, cy, top) by {
                lemma_wall_slots_distinct(cx, cy, top, cx, cy, top);
            }
        }
        i += 1;
    }
    Ok(out)
}


/// The tile a drawing gives cell `(x, y)`: its rocket or hole, else its
/// arrow, else nothing.
pub open spec fn drawn_tile(t: Seq<Seq<char>>, x: int, y: int) -> TileType {
    let row = t[2 * y + 1];
    if row[5 * x + 1] == 'R' {
        TileType::Rocket
    } else if row[5 * x + 1] == 'H' {
        TileType::Hole
    } else if row[5 * x + 3] == 'A' {
        let g = row[5 * x + 4];
        if g == '^' {
            TileType::Up
        } else if g == 'v' {
            TileType::Down
        } else if g == '<' {
            TileType::Left
        } else {
            TileType::Right
        }
    } else {
        TileType::Empty
    }
}

/// The walker kind a drawing puts in cell `(x, y)`, if any.
pub open spec fn drawn_walker_kind(t: Seq<Seq<char>>, x: int, y: int) -> Option<WalkerType> {
    let a = t[2 * y + 1][5 * x + 1];
    if a == 'M' {
        Some(WalkerType::Mouse)
    } else if a == 'C' {
        Some(WalkerType::Cat)
    } else {
        None
    }
}

/// The walkers of kind `k` that the first `n` cells of a drawing hold, in
/// cell order, each at the start of its cell facing its drawn direction.
pub open spec fn drawn_walkers(t: Seq<Seq<char>>, k: WalkerType, n: int) -> Seq<Walker>
    decreases n,
{
    if n <= 0 {
        Seq::empty()
    } else {
        let before = drawn_walkers(t, k, n - 1);
        let x = (n - 1) % (WORLD_WIDTH as int);
        let y = (n - 1) / (WORLD_WIDTH as int);
        if drawn_walker_kind(t, x, y) == Some(k) {
            before.push(fresh_walker(x, y, glyph_direction(t[2 * y + 1][5 * x + 2]), k))
        } else {
            before
        }
    }
}

proof fn lemma_cell_code_fields(e: u8, ed: u8, a: u8, ad: u8) by (bit_vector)
    requires
        e == 0 || e == 0x20 || e == 0x40 || e == 0x60 || e == 0x80,
        ed < 4,
        a == 0 || a == 4,
        ad < 4,
    ensures
        ((e | (ed << 3u8)) | (a | ad)) & 0xe0u8 == e,
        ((e | (ed << 3u8)) | (a | ad)) & 0x18u8 == ed << 3u8,
        ((e | (ed << 3u8)) | (a | ad)) & 0x04u8 == a,
        ((e | (ed << 3u8)) | (a | ad)) & 0x03u8 == ad,
        (ed << 3u8) == 0 <==> ed == 0,
        (ed << 3u8) == 8 <==> ed == 1,
        (ed << 3u8) == 16 <==> ed == 2,
{
}

proof fn lemma_cell_decodes(t: Seq<Seq<char>>, code: u8, x: int, y: int)
    requires
        0 <= x < WORLD_WIDTH,
        0 <= y < WORLD_HEIGHT,
        t.len() == BODY_ROWS,
        t[2 * y + 1].len() == ROW_CHARS,
        arrows_ok(t[2 * y + 1]),
        tiles_ok(t[2 * y + 1]),
        code == drawn_cell_code(t, x, y),
    ensures
        tile_of_entity(code) == drawn_tile(t, x, y),
        walker_kind_of(code) == drawn_walker_kind(t, x, y),
        walker_kind_of(code) is Some ==> entity_direction_of(code) == glyph_direction(t[2 * y + 1][5 * x + 2]),
{
    let row = t[2 * y + 1];
    let (a, b, c, d) = (row[5 * x + 1], row[5 * x + 2], row[5 * x + 3], row[5 * x + 4]);
    assert(tile_glyphs_ok(a, b));
    assert(arrow_glyphs_ok(c, d));
    let e: u8 = if a == 'M' {
        ENTITY_TYPE_MOUSE
    } else if a == 'C' {
        ENTITY_TYPE_CAT
    } else if a == 'R' {
        ENTITY_TYPE_ROCKET
    } else if a == 'H' {
        ENTITY_TYPE_HOLE
    } else {
        ENTITY_TYPE_EMPTY
    };
    let ed: u8 = if a == 'M' || a == 'C' {
        glyph_code(b)
    } else {
        0
    };
    let ar: u8 = if c == 'A' {
        4
    } else {
        0
    };
    let ad: u8 = if c == 'A' {
        glyph_code(d)
    } else {
        0
    };
    lemma_cell_code_fields(e, ed, ar, ad);
    assert(e | (0u8 << 3u8) == e) by (bit_vector);
    assert(entity_code(a, b) == e | (ed << 3u8));
    assert(0u8 | 0u8 == 0u8) by (bit_vector);
    assert(arrow_code(c, d) == ar | ad);
}

/// Loading the map that `puzzle` packs gives back the drawing: each wall
/// of each cell is where the drawing puts it (a down or right wall being
/// the drawn top or left wall of the neighbouring cell), each cell's tile is
/// its drawn rocket, hole or arrow, and the mice and the cats are the drawn
/// ones, in cell order, each facing its drawn direction.
pub proof fn lemma_packed_level_round_trip(
    name: Seq<u8>,
    author: Seq<u8>,
    t: Seq<Seq<char>>,
    bytes: Seq<u8>,
    world: World,
)
    requires
        puzzle_problem(name, author, t) is None,
        packs(bytes, name, author, t),
        world.data@ == bytes,
        world.tiles@ == loaded_tiles(bytes),
        walkers_of(world.mice) == loaded_walkers(bytes, WalkerType::Mouse, MAX_TILES as int),
        walkers_of(world.cats) == loaded_walkers(bytes, WalkerType::Cat, MAX_TILES as int),
    ensures
        forall|x: int, y: int, d: Direction|
            in_grid(x, y) ==> #[trigger] world.wall_at(x, y, d) == drawn_wall(
                t,
                wall_owner(x, y, d).0,
                wall_owner(x, y, d).1,
                wall_owner(x, y, d).2,
            ),
        forall|x: int, y: int| in_grid(x, y) ==> #[trigger] world.tile_at(x, y) == drawn_tile(t, x, y),
        walkers_of(world.mice) == drawn_walkers(t, WalkerType::Mouse, MAX_TILES as int),
        walkers_of(world.cats) == drawn_walkers(t, WalkerType::Cat, MAX_TILES as int),
{
    assert forall|x: int, y: int, d: Direction| in_grid(x, y) implies #[trigger] world.wall_at(x, y, d)
        == drawn_wall(t, wall_owner(x, y, d).0, wall_owner(x, y, d).1, wall_owner(x, y, d).2) by {
        let o = wall_owner(x, y, d);
        assert(in_grid(o.0, o.1));
    }
    assert forall|i: int| 0 <= i < MAX_TILES implies {
        let x = i % (WORLD_WIDTH as int);
        let y = i / (WORLD_WIDTH as int);
        &&& tile_of_entity(#[trigger] bytes[ENTITY_BLOCK_OFFSET + i]) == drawn_tile(t, x, y)
        &&& walker_kind_of(bytes[ENTITY_BLOCK_OFFSET + i]) == drawn_walker_kind(t, x, y)
        &&& walker_kind_of(bytes[ENTITY_BLOCK_OFFSET + i]) is Some ==> entity_direction_of(bytes[ENTITY_BLOCK_OFFSET + i])
            == glyph_direction(t[2 * y + 1][5 * x + 2])
    } by {
        let x = i % (WORLD_WIDTH as int);
        let y = i / (WORLD_WIDTH as int);
        assert(row_passes(drawn_row(t, y, true), 4));
        assert(row_passes(drawn_row(t, y, true), 5));
        assert(t[2 * y + 1].len() == ROW_CHARS);
        lemma_cell_decodes(t, bytes[ENTITY_BLOCK_OFFSET + i], x, y);
    }
    assert forall|x: int, y: int| in_grid(x, y) implies #[trigger] world.tile_at(x, y) == drawn_tile(t, x, y) by {
        let i = cell_index(x, y);
        assert(i % (WORLD_WIDTH as int) == x && i / (WORLD_WIDTH as int) == y);
        assert(tile_of_entity(bytes[ENTITY_BLOCK_OFFSET + i]) == drawn_tile(t, x, y));
    }
    lemma_walkers_round_trip(t, bytes, WalkerType::Mouse, MAX_TILES as int);
    lemma_walkers_round_trip(t, bytes, WalkerType::Cat, MAX_TILES as int);
}

proof fn lemma_walkers_round_trip(t: Seq<Seq<char>>, bytes: Seq<u8>, k: WalkerType, n: int)
    requires
        0 <= n <= MAX_TILES,
        forall|i: int| 0 <= i < MAX_TILES ==> {
            let x = i % (WORLD_WIDTH as int);
            let y = i / (WORLD_WIDTH as int);
            &&& walker_kind_of(#[trigger] bytes[ENTITY_BLOCK_OFFSET + i]) == drawn_walker_kind(t, x, y)
            &&& walker_kind_of(bytes[ENTITY_BLOCK_OFFSET + i]) is Some ==> entity_direction_of(bytes[ENTITY_BLOCK_OFFSET + i])
                == glyph_direction(t[2 * y + 1][5 * x + 2])
        },
    ensures
        loaded_walkers(bytes, k, n) == drawn_walkers(t, k, n),
    decreases n,
{
    if n > 0 {
        lemma_walkers_round_trip(t, bytes, k, n - 1);
        let b = bytes[ENTITY_BLOCK_OFFSET + n - 1];
        assert(b == bytes[ENTITY_BLOCK_OFFSET + (n - 1)]);
    }
}

fn glyph_code_exec(c: char) -> (r: u8)
    ensures
        r == glyph_code(c),
{
    if c == '^' {
        0
    } else if c == 'v' {
        1
    } else if c == '<' {
        2
    } else {
        3
    }
}

fn is_direction_glyph_exec(c: char) -> (r: bool)
    ensures
        r == is_direction_glyph(c),
{
    c == '^' || c == 'v' || c == '<' || c == '>'
}

fn cell_tops_agree_exec(row: &str) -> (r: bool)
    requires
        row@.len() == ROW_CHARS,
    ensures
        r == cell_tops_agree(row@),
{
    let mut c: usize = 0;
    while c < WORLD_WIDTH
        invariant
            c <= WORLD_WIDTH,
            row@.len() == ROW_CHARS,
            forall|c2: int, j: int| 0 <= c2 < c && 1 <= j < 5 ==> #[trigger] row@[5 * c2 + j] == row@[5 * c2 + 1],
        decreases WORLD_WIDTH - c,
    {
        let first = row.get_char(5 * c + 1);
        let mut j: usize = 2;
        while j < 5
            invariant
                2 <= j <= 5,
                c < WORLD_WIDTH,
                row@.len() == ROW_CHARS,
                first == row@[5 * c + 1],
                forall|j2: int| 1 <= j2 < j ==> #[trigger] row@[5 * c + j2] == row@[5 * c + 1],
            decreases 5 - j,
        {
            if row.get_char(5 * c + j) != first {
                return false;
            }
            j += 1;
        }
        c += 1;
    }
    true
}

fn top_walls_ok_exec(row: &str) -> (r: bool)
    requires
        row@.len() == ROW_CHARS,
    ensures
        r == top_walls_ok(row@),
{
    let mut c: usize = 0;
    while c < WORLD_WIDTH
        invariant
            c <= WORLD_WIDTH,
            row@.len() == ROW_CHARS,
            forall|c2: int| 0 <= c2 < c ==> #[trigger] row@[5 * c2 + 1] == '─' || row@[5 * c2 + 1] == ' ',
        decreases WORLD_WIDTH - c,
    {
        let g = row.get_char(5 * c + 1);
        if g != '─' && g != ' ' {
            return false;
        }
        c += 1;
    }
    true
}

fn left_walls_ok_exec(row: &str) -> (r: bool)
    requires
        row@.len() == ROW_CHARS,
    ensures
        r == left_walls_ok(row@),
{
    let mut c: usize = 0;
    while c < WORLD_WIDTH
        invariant
            c <= WORLD_WIDTH,
            row@.len() == ROW_CHARS,
            forall|c2: int| 0 <= c2 < c ==> #[trigger] row@[5 * c2] == '│' || row@[5 * c2] == ' ',
        decreases WORLD_WIDTH - c,
    {
        let g = row.get_char(5 * c);
        if g != '│' && g != ' ' {
            return false;
        }
        c += 1;
    }
    true
}

fn arrows_ok_exec(row: &str) -> (r: bool)
    requires
        row@.len() == ROW_CHARS,
    ensures
        r == arrows_ok(row@),
{
    let mut c: usize = 0;
    while c < WORLD_WIDTH
        invariant
            c <= WORLD_WIDTH,
            row@.len() == ROW_CHARS,
            forall|c2: int| 0 <= c2 < c ==> #[trigger] arrow_glyphs_ok(row@[5 * c2 + 3], row@[5 * c2 + 4]),
        decreases WORLD_WIDTH - c,
    {
        let a = row.get_char(5 * c + 3);
        let b = row.get_char(5 * c + 4);
        if !((a == 'A' && is_direction_glyph_exec(b)) || (a == ' ' && b == ' ')) {
            assert(!arrow_glyphs_ok(row@[5 * c + 3], row@[5 * c + 4]));
            return false;
        }
        c += 1;
    }
    true
}

fn tiles_ok_exec(row: &str) -> (r: bool)
    requires
        row@.len() == ROW_CHARS,
    ensures
        r == tiles_ok(row@),
{
    let mut c: usize = 0;
    while c < WORLD_WIDTH
        invariant
            c <= WORLD_WIDTH,
            row@.len() == ROW_CHARS,
            forall|c2: int| 0 <= c2 < c ==> #[trigger] tile_glyphs_ok(row@[5 * c2 + 1], row@[5 * c2 + 2]),
        decreases WORLD_WIDTH - c,
    {
        let a = row.get_char(5 * c + 1);
        let b = row.get_char(5 * c + 2);
        if !(((a == 'M' || a == 'C') && is_direction_glyph_exec(b)) || ((a == 'R' || a == 'H') && b
            == ' ') || (a == ' ' && b == ' ')) {
            assert(!tile_glyphs_ok(row@[5 * c + 1], row@[5 * c + 2]));
            return false;
        }
        c += 1;
    }
    true
}

} // verus!
