//! The maze grid: a rectangular field of tiles, each walkable or a wall,
//! parsed from a textual description (one digit per tile, `0` walkable).

use vstd::prelude::*;
use crate::Direction;
use crate::transform::Transform;

verus! {

/// Side of one tile in fixed-point coordinate steps (30 world units).
pub const TILE_SIZE: i64 = 30_000;

/// Caps on the grid, so every tile coordinate and every candidate position
/// a frame can produce stays comfortably inside `i64`.
pub const MAX_ROWS: usize = 10_000;

pub const MAX_COLS: usize = 10_000;

/// The lines of a source text: the segments between newline characters,
/// where a final newline terminates the last line rather than opening an
/// empty one.
pub open spec fn lines_of(s: Seq<char>) -> Seq<Seq<char>>
    decreases s.len(),
{
    if s.len() == 0 {
        Seq::<Seq<char>>::empty()
    } else if s[0] == '\n' {
        seq![Seq::<char>::empty()] + lines_of(s.skip(1))
    } else {
        let rest = lines_of(s.skip(1));
        if rest.len() == 0 {
            seq![seq![s[0]]]
        } else {
            seq![seq![s[0]] + rest[0]] + rest.skip(1)
        }
    }
}

/// A nonempty text has at least one line.
pub proof fn lemma_lines_of_len_pos(s: Seq<char>)
    requires
        s.len() > 0,
    ensures
        lines_of(s).len() > 0,
{
}

/// Splitting distributes over concatenation at a newline boundary: the
/// lines of `a + b` are the lines of `a` followed by the lines of `b`,
/// whenever `a` ends with a newline.
pub proof fn lemma_lines_of_concat(a: Seq<char>, b: Seq<char>)
    requires
        a.len() > 0,
        a.last() == '\n',
    ensures
        lines_of(a + b) == lines_of(a) + lines_of(b),
    decreases a.len(),
{
    if a.len() == 1 {
        assert((a + b).skip(1) =~= b);
        assert(a.skip(1) =~= Seq::<char>::empty());
        assert(lines_of(a + b) =~~= lines_of(a) + lines_of(b));
    } else if a[0] == '\n' {
        assert((a + b).skip(1) =~= a.skip(1) + b);
        lemma_lines_of_concat(a.skip(1), b);
        assert(lines_of(a + b) =~~= lines_of(a) + lines_of(b));
    } else {
        assert((a + b).skip(1) =~= a.skip(1) + b);
        lemma_lines_of_concat(a.skip(1), b);
        lemma_lines_of_len_pos(a.skip(1));
        let rest_a = lines_of(a.skip(1));
        let rest_ab = lines_of(a.skip(1) + b);
        assert(rest_ab[0] == rest_a[0]);
        assert(rest_ab.skip(1) =~~= rest_a.skip(1) + lines_of(b));
        assert(lines_of(a + b) =~~= lines_of(a) + lines_of(b));
    }
}

/// A newline-free text is one line, terminated or not: appending a newline
/// to it yields exactly that line, and taken alone (if nonempty) it is that
/// line as well.
pub proof fn lemma_lines_of_single(t: Seq<char>)
    requires
        forall|k: int| 0 <= k < t.len() ==> t[k] != '\n',
    ensures
        lines_of(t + seq!['\n']) == seq![t],
        t.len() > 0 ==> lines_of(t) == seq![t],
    decreases t.len(),
{
    if t.len() == 0 {
        assert(t + seq!['\n'] =~= seq!['\n']);
        assert((seq!['\n']).skip(1) =~= Seq::<char>::empty());
        assert(lines_of(Seq::<char>::empty()) =~= Seq::<Seq<char>>::empty());
        assert(lines_of(t + seq!['\n']) =~~= seq![t]);
    } else {
        lemma_lines_of_single(t.skip(1));
        assert((t + seq!['\n']).skip(1) =~= t.skip(1) + seq!['\n']);
        let rest = lines_of(t.skip(1) + seq!['\n']);
        assert(rest =~~= seq![t.skip(1)]);
        assert(seq![t[0]] + t.skip(1) =~= t);
        assert(rest.skip(1) =~= Seq::<Seq<char>>::empty());
        assert(lines_of(t + seq!['\n']) =~~= seq![t]);
        if t.len() == 1 {
            assert(t.skip(1) =~= Seq::<char>::empty());
            assert(lines_of(Seq::<char>::empty()) =~= Seq::<Seq<char>>::empty());
            assert(lines_of(t) =~~= seq![t]);
        } else {
            assert(lines_of(t.skip(1)) == seq![t.skip(1)]);
            assert(lines_of(t) =~~= seq![t]);
        }
    }
}

/// A decimal digit.
pub open spec fn is_digit_char(c: char) -> bool {
    48 <= c as int <= 57
}

/// The walkability grid a source describes: one row per line, `'0'`
/// walkable, any other digit a wall.
pub open spec fn grid_of(s: Seq<char>) -> Seq<Seq<bool>> {
    lines_of(s).map(|r: int, line: Seq<char>| line.map(|c: int, ch: char| ch == '0'))
}

/// The source has no line, or its first line has no tile.
pub open spec fn source_is_empty(s: Seq<char>) -> bool {
    lines_of(s).len() == 0 || lines_of(s)[0].len() == 0
}

/// Some line differs in length from the first.
pub open spec fn source_is_ragged(s: Seq<char>) -> bool {
    exists|i: int|
        0 < i < lines_of(s).len() && (#[trigger] lines_of(s)[i]).len() != lines_of(s)[0].len()
}

/// Some line holds a character that is not a decimal digit.
pub open spec fn source_has_non_digit(s: Seq<char>) -> bool {
    exists|i: int, j: int|
        0 <= i < lines_of(s).len() && 0 <= j < lines_of(s)[i].len() && !is_digit_char(
            #[trigger] lines_of(s)[i][j],
        )
}

/// The grid the source describes exceeds the size caps.
pub open spec fn source_too_large(s: Seq<char>) -> bool {
    lines_of(s).len() > MAX_ROWS || (lines_of(s).len() > 0 && lines_of(s)[0].len() > MAX_COLS)
}

/// A source the loader accepts: a nonempty rectangular grid of decimal
/// digits within the size caps.
pub open spec fn source_valid(s: Seq<char>) -> bool {
    &&& !source_is_empty(s)
    &&& !source_is_ragged(s)
    &&& !source_has_non_digit(s)
    &&& !source_too_large(s)
}

/// Why a map source was rejected. Loading is fatal on any of these: there
/// is no game without a map.
#[derive(Debug, Clone, Copy, PartialEq, Eq, Structural)]
pub enum LoadError {
    /// The source holds no line, or its first line holds no tile.
    Empty,
    /// Some line differs in length from the first: the grid must be
    /// rectangular.
    Ragged,
    /// A character other than a decimal digit appears in some line.
    NonDigit,
    /// The grid exceeds `MAX_ROWS` x `MAX_COLS`.
    TooLarge,
}

/// One grid cell: walkable (`is_empty`) or a wall, with its fixed bounds.
#[derive(Debug, Clone, Copy, PartialEq, Eq, Structural)]
pub struct Tile {
    pub is_empty: bool,
    pub transform: Transform,
}

/// The bounds every tile at grid cell `(row, col)` carries: a `TILE_SIZE`
/// square at `(col * TILE_SIZE, row * TILE_SIZE)`, facing up, at rest.
pub open spec fn tile_transform(row: int, col: int) -> Transform {
    Transform {
        x: (col * TILE_SIZE) as i64,
        y: (row * TILE_SIZE) as i64,
        direction: Direction::Up,
        width: TILE_SIZE,
        height: TILE_SIZE,
        velocity_x: 0,
        velocity_y: 0,
    }
}

/// Decimal-digit test, deciding `is_digit_char` exactly.
fn is_digit(c: char) -> (r: bool)
    ensures
        r == is_digit_char(c),
{
    c == '0' || c == '1' || c == '2' || c == '3' || c == '4' || c == '5' || c == '6' || c == '7'
        || c == '8' || c == '9'
}

/// The characters of the source, materialized once so later passes can
/// index them in constant time.
fn collect_chars(source: &str) -> (v: Vec<char>)
    ensures
        v@ == source@,
{
    let n = source.unicode_len();
    let mut v: Vec<char> = Vec::new();
    proof {
        assert(v@ =~= source@.take(0));
    }
    let mut i: usize = 0;
    while i < n
        invariant
            i <= n,
            n == source@.len(),
            v@ == source@.take(i as int),
        decreases n - i,
    {
        let c = source.get_char(i);
        v.push(c);
        proof {
            assert(source@.take(i + 1) =~= source@.take(i as int).push(source@[i as int]));
        }
        i = i + 1;
    }
    proof {
        assert(source@.take(n as int) =~= source@);
    }
    v
}

/// Scan the source once and return, for each of its lines, the start and
/// one-past-the-end character positions.
#[verifier::loop_isolation(false)]
fn scan_line_spans(source: &str, chars: &Vec<char>) -> (r: (Vec<usize>, Vec<usize>))
    requires
        chars@ == source@,
    ensures
        r.0@.len() == lines_of(source@).len(),
        r.1@.len() == r.0@.len(),
        forall|i: int|
            0 <= i < r.0@.len() ==> {
                &&& #[trigger] r.0@[i] <= r.1@[i] <= source@.len()
                &&& source@.subrange(r.0@[i] as int, r.1@[i] as int) == lines_of(source@)[i]
            },
{
    let n = source.unicode_len();
    let mut starts: Vec<usize> = Vec::new();
    let mut ends: Vec<usize> = Vec::new();
    let mut start: usize = 0;
    while start < n
        invariant
            start <= n,
            starts@.len() == ends@.len(),
            starts@.len() == lines_of(source@.take(start as int)).len(),
            forall|i: int|
                0 <= i < starts@.len() ==> {
                    &&& #[trigger] starts@[i] <= ends@[i] <= n
                    &&& source@.subrange(starts@[i] as int, ends@[i] as int) == lines_of(
                        source@.take(start as int),
                    )[i]
                },
            start == 0 || start == n || source@[start as int - 1] == '\n',
        decreases n - start,
    {
        let line_start = start;
        let mut end = start;
        while end < n && chars[end] != '\n'
            invariant
                start <= end <= n,
                forall|k: int| start <= k < end ==> source@[k] != '\n',
            decreases n - end,
        {
            end = end + 1;
        }
        let ghost pre_starts = starts@;
        let ghost pre_ends = ends@;
        starts.push(line_start);
        ends.push(end);
        let next_start: usize = if end < n {
            end + 1
        } else {
            end
        };
        proof {
            let prefix = source@.take(line_start as int);
            let line = source@.subrange(line_start as int, end as int);
            let old_lines = lines_of(prefix);
            assert(forall|k: int| 0 <= k < line.len() ==> line[k] != '\n');
            lemma_lines_of_single(line);
            if line_start == 0 {
                assert(prefix =~= Seq::<char>::empty());
                assert(lines_of(Seq::<char>::empty()) =~= Seq::<Seq<char>>::empty());
            }
            if end < n {
                assert(source@[end as int] == '\n');
                assert(source@.take(end + 1) =~= prefix + (line + seq!['\n']));
                if line_start == 0 {
                    assert(prefix + (line + seq!['\n']) =~= line + seq!['\n']);
                } else {
                    assert(prefix.last() == '\n');
                    lemma_lines_of_concat(prefix, line + seq!['\n']);
                }
                assert(lines_of(source@.take(end + 1)) =~~= old_lines + seq![line]);
            } else {
                assert(line.len() > 0);
                assert(source@.take(n as int) =~= prefix + line);
                if line_start == 0 {
                    assert(prefix + line =~= line);
                } else {
                    assert(prefix.last() == '\n');
                    lemma_lines_of_concat(prefix, line);
                }
                assert(lines_of(source@.take(n as int)) =~~= old_lines + seq![line]);
            }
            let new_lines = lines_of(source@.take(next_start as int));
            assert(new_lines == old_lines + seq![line]);
            assert(old_lines.len() == pre_starts.len());
            assert(new_lines.len() == starts@.len());
            assert forall|i: int| 0 <= i < starts@.len() implies {
                &&& #[trigger] starts@[i] <= ends@[i] <= n
                &&& source@.subrange(starts@[i] as int, ends@[i] as int) == new_lines[i]
            } by {
                if i < pre_starts.len() {
                    assert(starts@[i] == pre_starts[i]);
                    assert(ends@[i] == pre_ends[i]);
                    assert(pre_starts[i] <= pre_ends[i] <= n);
                    assert(source@.subrange(pre_starts[i] as int, pre_ends[i] as int)
                        == old_lines[i]);
                    assert(new_lines[i] == old_lines[i]);
                } else {
                    assert(starts@[i] == line_start);
                    assert(ends@[i] == end);
                    assert(new_lines[i] == line);
                }
            }
        }
        start = next_start;
        proof {
            assert(starts@.len() == lines_of(source@.take(start as int)).len());
            assert(forall|i: int|
                0 <= i < starts@.len() ==> {
                    &&& #[trigger] starts@[i] <= ends@[i] <= n
                    &&& source@.subrange(starts@[i] as int, ends@[i] as int) == lines_of(
                        source@.take(start as int),
                    )[i]
                });
            assert(start == 0 || start == n || source@[start as int - 1] == '\n');
        }
    }
    proof {
        assert(source@.take(n as int) =~= source@);
    }
    (starts, ends)
}

/// The maze, immutable after load. `tiles` is indexed `[row][col]`;
/// `size` is `(columns, rows)`.
#[derive(Debug)]
pub struct TileMap {
    pub tiles: Vec<Vec<Tile>>,
    pub size: (usize, usize),
}

impl TileMap {
    /// Walkability by grid cell, as contracts see the map.
    pub open spec fn grid(&self) -> Seq<Seq<bool>> {
        self.tiles@.map(|r: int, row: Vec<Tile>| row@.map(|c: int, t: Tile| t.is_empty))
    }

    /// Well-formedness: a nonempty rectangular grid within the size caps,
    /// `size` consistent with it, and every tile carrying its own bounds.
    pub open spec fn wf(&self) -> bool {
        &&& self.size.1 == self.tiles@.len()
        &&& 0 < self.size.1 <= MAX_ROWS
        &&& 0 < self.size.0 <= MAX_COLS
        &&& forall|r: int|
            0 <= r < self.tiles@.len() ==> (#[trigger] self.tiles@[r])@.len() == self.size.0
        &&& forall|r: int, c: int|
            0 <= r < self.tiles@.len() && 0 <= c < self.size.0 ==> (#[trigger] self.tiles@[r]@[c]).transform
                == tile_transform(r, c)
    }

    /// A cell is walkable when it lies inside the grid and holds a walkable
    /// tile; any out-of-range query counts as blocked.
    pub open spec fn walkable_at(&self, row: int, col: int) -> bool {
        &&& 0 <= row < self.grid().len()
        &&& 0 <= col < self.grid()[row].len()
        &&& self.grid()[row][col]
    }

    /// Total walkability query: out-of-range indices are simply blocked, so
    /// boundary movement can never crash the game.
    pub fn is_walkable_at(&self, row: u64, col: u64) -> (r: bool)
        ensures
            r == self.walkable_at(row as int, col as int),
    {
        if row >= self.tiles.len() as u64 {
            return false;
        }
        let row_ref = &self.tiles[row as usize];
        if col >= row_ref.len() as u64 {
            return false;
        }
        row_ref[col as usize].is_empty
    }

    /// Parse a textual grid description: lines of decimal digits, one
    /// digit per tile, `0` walkable and any other digit a wall. Returns the
    /// map exactly when the source is a nonempty rectangular digit grid
    /// within the size caps; otherwise the error says what was wrong, the
    /// shape faults taking precedence over the character fault.
    #[verifier::loop_isolation(false)]
    pub fn new(source: &str) -> (r: Result<TileMap, LoadError>)
        ensures
            (match r {
                Ok(map) => {
                    &&& source_valid(source@)
                    &&& map.wf()
                    &&& map.grid() == grid_of(source@)
                    &&& map.size.0 == lines_of(source@)[0].len()
                    &&& map.size.1 == lines_of(source@).len()
                },
                Err(e) => {
                    &&& !source_valid(source@)
                    &&& (e == LoadError::Empty <==> source_is_empty(source@))
                    &&& (e == LoadError::Ragged <==> !source_is_empty(source@)
                        && source_is_ragged(source@))
                    &&& (e == LoadError::NonDigit <==> !source_is_empty(source@)
                        && !source_is_ragged(source@) && source_has_non_digit(source@))
                    &&& (e == LoadError::TooLarge <==> !source_is_empty(source@)
                        && !source_is_ragged(source@) && !source_has_non_digit(source@)
                        && source_too_large(source@))
                },
            }),
    {
        let ghost s = source@;
        let chars = collect_chars(source);
        let (starts, ends) = scan_line_spans(source, &chars);
        let rows = starts.len();
        proof {
            assert(lines_of(s).len() == rows);
        }

        if rows == 0 {
            return Err(LoadError::Empty);
        }
        let width = ends[0] - starts[0];
        proof {
            assert(lines_of(s)[0].len() == width);
        }
        if width == 0 {
            return Err(LoadError::Empty);
        }

        let mut i: usize = 1;
        while i < rows
            invariant
                1 <= i <= rows,
                forall|k: int|
                    0 < k < i ==> (#[trigger] lines_of(s)[k]).len() == lines_of(s)[0].len(),
            decreases rows - i,
        {
            if ends[i] - starts[i] != width {
                return Err(LoadError::Ragged);
            }
            i = i + 1;
        }
        proof {
            assert(!source_is_ragged(s));
        }

        let mut row: usize = 0;
        while row < rows
            invariant
                row <= rows,
                forall|ri: int, ci: int|
                    0 <= ri < row && 0 <= ci < lines_of(s)[ri].len() ==> is_digit_char(
                        #[trigger] lines_of(s)[ri][ci],
                    ),
            decreases rows - row,
        {
            let base = starts[row];
            let mut col: usize = 0;
            while col < width
                invariant
                    col <= width,
                    forall|ci: int|
                        0 <= ci < col ==> is_digit_char(#[trigger] lines_of(s)[row as int][ci]),
                decreases width - col,
            {
                proof {
                    assert(starts@[row as int] <= ends@[row as int] <= source@.len());
                    assert(lines_of(s)[row as int] == s.subrange(
                        starts@[row as int] as int,
                        ends@[row as int] as int,
                    ));
                    if row > 0 {
                        assert(lines_of(s)[row as int].len() == lines_of(s)[0].len());
                    }
                    assert(lines_of(s)[row as int][col as int] == s[base + col]);
                }
                let ch = chars[base + col];
                proof {
                    assert(chars@[base + col] == lines_of(s)[row as int][col as int]);
                }
                if !is_digit(ch) {
                    proof {
                        assert(!is_digit_char(lines_of(s)[row as int][col as int]));
                        assert(source_has_non_digit(s));
                    }
                    return Err(LoadError::NonDigit);
                }
                proof {
                    assert(is_digit_char(lines_of(s)[row as int][col as int]));
                }
                col = col + 1;
            }
            row = row + 1;
        }
        proof {
            assert(!source_has_non_digit(s));
        }

        if rows > MAX_ROWS || width > MAX_COLS {
            return Err(LoadError::TooLarge);
        }

        let mut tiles: Vec<Vec<Tile>> = Vec::new();
        let mut r_idx: usize = 0;
        while r_idx < rows
            invariant
                r_idx <= rows,
                tiles@.len() == r_idx,
                forall|ri: int| 0 <= ri < r_idx ==> (#[trigger] tiles@[ri])@.len() == width,
                forall|ri: int, ci: int|
                    0 <= ri < r_idx && 0 <= ci < width ==> {
                        &&& (#[trigger] tiles@[ri]@[ci]).is_empty == (lines_of(s)[ri][ci] == '0')
                        &&& tiles@[ri]@[ci].transform == tile_transform(ri, ci)
                    },
            decreases rows - r_idx,
        {
            let base = starts[r_idx];
            let mut row_vec: Vec<Tile> = Vec::new();
            let mut c_idx: usize = 0;
            while c_idx < width
                invariant
                    c_idx <= width,
                    row_vec@.len() == c_idx,
                    forall|ci: int|
                        0 <= ci < c_idx ==> {
                            &&& (#[trigger] row_vec@[ci]).is_empty == (lines_of(s)[r_idx as int][ci]
                                == '0')
                            &&& row_vec@[ci].transform == tile_transform(r_idx as int, ci)
                        },
                decreases width - c_idx,
            {
                let ch = chars[base + c_idx];
                row_vec.push(
                    Tile {
                        is_empty: ch == '0',
                        transform: Transform {
                            x: (c_idx as i64) * TILE_SIZE,
                            y: (r_idx as i64) * TILE_SIZE,
                            direction: Direction::Up,
                            width: TILE_SIZE,
                            height: TILE_SIZE,
                            velocity_x: 0,
                            velocity_y: 0,
                        },
                    },
                );
                c_idx = c_idx + 1;
            }
            tiles.push(row_vec);
            r_idx = r_idx + 1;
        }

        let map = TileMap { tiles, size: (width, rows) };
        proof {
            assert(map.grid() =~~= grid_of(s));
        }
        Ok(map)
    }

    /// Grid extent as `(columns, rows)`, for window sizing.
    pub fn dimensions(&self) -> (d: (usize, usize))
        ensures
            d == self.size,
    {
        self.size
    }
}

} // verus!
