use vstd::prelude::*;
use crate::util::Idx2;
use crate::grid::in_room;
use crate::platform::PlatformKind;
use crate::warp::{WarpColor, LasorKind};
use crate::builder::{GameBoardBuilder, BoardLayout, BuildError, BuilderView, PendingCell, built};

verus! {

/// The characters of `s`.
fn chars_of(s: &str) -> (r: Vec<char>)
    ensures
        r@ == s@,
{
    let mut r: Vec<char> = Vec::new();
    for c in it: s.chars()
        invariant
            r@ == it.seq().take(it.index() as int),
    {
        r.push(c);
    }
    r
}

/// The rows scanned so far and the row being read, after `s`.
pub open spec fn scan_rows(s: Seq<char>) -> (Seq<Seq<char>>, Seq<char>)
    decreases s.len(),
{
    if s.len() == 0 {
        (Seq::empty(), Seq::empty())
    } else {
        let (done, cur) = scan_rows(s.drop_last());
        if s.last() == '\n' {
            (end_row(done, cur), Seq::empty())
        } else {
            (done, cur.push(s.last()))
        }
    }
}

/// Ends a row at a line feed: a carriage return before it is dropped, and
/// an empty row is skipped.
pub open spec fn end_row(done: Seq<Seq<char>>, cur: Seq<char>) -> Seq<Seq<char>> {
    let row = if cur.len() > 0 && cur.last() == '\r' {
        cur.drop_last()
    } else {
        cur
    };
    if row.len() == 0 {
        done
    } else {
        done.push(row)
    }
}

/// The non-empty lines of `s`, top line first.
pub open spec fn level_rows(s: Seq<char>) -> Seq<Seq<char>> {
    let (done, cur) = scan_rows(s);
    if cur.len() == 0 {
        done
    } else {
        done.push(cur)
    }
}

/// A level file: a grid of characters whose bottom line is row 0. The last
/// column of the first line is not part of the room.
pub struct LevelFile {
    dims: Idx2,
    grid: Vec<Vec<char>>,
}

impl LevelFile {
    /// The columns and rows of the room.
    pub closed spec fn dims(&self) -> Idx2 {
        self.dims
    }

    /// The lines of the file, top line first.
    pub closed spec fn rows(&self) -> Seq<Seq<char>> {
        self.grid@.map_values(|r: Vec<char>| r@)
    }

    /// The character at `(x, y)`, if the file has one there.
    pub open spec fn spec_get(&self, x: int, y: int) -> Option<char> {
        let r = self.dims().1 - 1 - y;
        if 0 <= x && 0 <= r < self.rows().len() && x < self.rows()[r].len() {
            Some(self.rows()[r][x])
        } else {
            None
        }
    }

    /// Reads the non-empty lines of `file_contents`; `None` if there are
    /// none, or if the room would have more columns or rows than an `i32`
    /// can count.
    pub fn new(file_contents: &str) -> (r: Option<LevelFile>)
        ensures
            match r {
                Some(f) => {
                    &&& f.rows() == level_rows(file_contents@)
                    &&& has_room(f.rows())
                    &&& f.dims() == ((f.rows()[0].len() - 1) as i32, f.rows().len() as i32)
                    &&& f.dims().0 >= 0
                },
                None => level_rows(file_contents@).len() == 0
                    || level_rows(file_contents@).len() > i32::MAX
                    || level_rows(file_contents@)[0].len() - 1 > i32::MAX,
            },
    {
        let mut rows: Vec<Vec<char>> = Vec::new();
        let mut cur: Vec<char> = Vec::new();
        let chars = chars_of(file_contents);
        let mut i: usize = 0;
        while i < chars.len()
            invariant
                chars@ == file_contents@,
                i <= chars@.len(),
                (rows@.map_values(|r: Vec<char>| r@), cur@) == scan_rows(chars@.take(i as int)),
            decreases chars@.len() - i,
        {
            let c = chars[i];
            assert(chars@.take(i + 1).drop_last() =~= chars@.take(i as int));
            if c == '\n' {
                let n = cur.len();
                if n > 0 && cur[n - 1] == '\r' {
                    cur.pop();
                }
                if cur.len() > 0 {
                    let ghost before = rows@.map_values(|r: Vec<char>| r@);
                    rows.push(cur);
                    assert(rows@.map_values(|r: Vec<char>| r@) =~= before.push(cur@));
                }
                cur = Vec::new();
            } else {
                cur.push(c);
            }
            i = i + 1;
        }
        assert(chars@.take(i as int) =~= file_contents@);
        if cur.len() > 0 {
            let ghost before = rows@.map_values(|r: Vec<char>| r@);
            let ghost last = cur@;
            rows.push(cur);
            assert(rows@.map_values(|r: Vec<char>| r@) =~= before.push(last));
        }
        assert(rows@.map_values(|r: Vec<char>| r@) == level_rows(file_contents@));
        if rows.len() == 0 || rows.len() > i32::MAX as usize || rows[0].len() == 0
            || rows[0].len() - 1 > i32::MAX as usize {
            if rows.len() > 0 && rows[0].len() == 0 {
                assert(rows@.map_values(|r: Vec<char>| r@)[0].len() == 0);
                assert(false) by {
                    lemma_rows_nonempty(file_contents@);
                }
            }
            return None;
        }
        let dims = ((rows[0].len() - 1) as i32, rows.len() as i32);
        Some(LevelFile { dims, grid: rows })
    }

    /// The character at `(x, y)`, if the file has one there.
    pub fn get(&self, pos: Idx2) -> (r: Option<char>)
        requires
            self.dims().1 == self.rows().len(),
        ensures
            r == self.spec_get(pos.0 as int, pos.1 as int),
    {
        if pos.0 < 0 || pos.1 < 0 || pos.1 >= self.dims.1 {
            return None;
        }
        let r = (self.dims.1 - 1 - pos.1) as usize;
        let row = &self.grid[r];
        proof {
            assert(self.rows()[r as int] == row@);
        }
        if pos.0 as usize >= row.len() {
            return None;
        }
        Some(row[pos.0 as usize])
    }

    pub fn room_dims(&self) -> (r: Idx2)
        ensures
            r == self.dims(),
    {
        self.dims
    }
}

/// Every line of a level is non-empty.
pub proof fn lemma_rows_nonempty(s: Seq<char>)
    ensures
        forall|i: int| 0 <= i < level_rows(s).len() ==> #[trigger] level_rows(s)[i].len() > 0,
{
    lemma_scan_rows_nonempty(s);
}

proof fn lemma_scan_rows_nonempty(s: Seq<char>)
    ensures
        forall|i: int| 0 <= i < scan_rows(s).0.len() ==> #[trigger] scan_rows(s).0[i].len() > 0,
    decreases s.len(),
{
    if s.len() > 0 {
        lemma_scan_rows_nonempty(s.drop_last());
        let (done, cur) = scan_rows(s.drop_last());
        if s.last() == '\n' {
            let rows = end_row(done, cur);
            assert forall|i: int| 0 <= i < rows.len() implies #[trigger] rows[i].len() > 0 by {
                if i < done.len() {
                    assert(rows[i] == done[i]);
                }
            }
        }
    }
}

pub open spec fn spec_digit(c: char) -> Option<u32> {
    if '0' <= c && c <= '9' {
        Some((c as u32 - '0' as u32) as u32)
    } else {
        None
    }
}

/// The value of a decimal digit.
pub fn digit(c: char) -> (r: Option<u32>)
    ensures
        r == spec_digit(c),
{
    if c >= '0' && c <= '9' {
        Some(c as u32 - '0' as u32)
    } else {
        None
    }
}

pub open spec fn spec_index_to_color(index: u32) -> Option<WarpColor> {
    if index == 0 {
        Some(WarpColor::Green)
    } else if index == 1 {
        Some(WarpColor::Blue)
    } else if index == 2 {
        Some(WarpColor::Pink)
    } else {
        None
    }
}

/// The warp color that a group digit names: 0 green, 1 blue, 2 pink.
pub fn index_to_color(index: u32) -> (r: Option<WarpColor>)
    ensures
        r == spec_index_to_color(index),
{
    match index {
        0 => Some(WarpColor::Green),
        1 => Some(WarpColor::Blue),
        2 => Some(WarpColor::Pink),
        _ => None,
    }
}

/// What one grid square of a level file asks for.
#[derive(Clone, Copy, Debug, PartialEq, Eq, Structural, Hash)]
pub enum Placement {
    Nothing,
    Player,
    Star,
    Wall,
    Floor,
    Gate(u32),
    Platform(PlatformKind, Option<u32>),
    Lasor(LasorKind, WarpColor),
    Button(u32),
    Respawn(WarpColor),
    Warp(WarpColor),
}

/// The placement that symbol `sym` with group digit `idx` stands for, or
/// `None` for a combination the format does not have.
pub open spec fn spec_placement(sym: char, idx: Option<u32>) -> Option<Placement> {
    match (sym, idx) {
        ('P', None) => Some(Placement::Player),
        ('@', None) => Some(Placement::Star),
        ('-', None) => Some(Placement::Wall),
        ('+', None) => Some(Placement::Floor),
        ('I', Some(i)) => Some(Placement::Gate(i)),
        ('C', i) => Some(Placement::Platform(PlatformKind::Circle, i)),
        ('c', i) => Some(Placement::Platform(PlatformKind::ReverseCircle, i)),
        ('A', i) => Some(Placement::Platform(PlatformKind::UpDown, i)),
        ('V', i) => Some(Placement::Platform(PlatformKind::DownUp, i)),
        ('>', i) => Some(Placement::Platform(PlatformKind::RightLeft, i)),
        ('<', i) => Some(Placement::Platform(PlatformKind::LeftRight, i)),
        ('L', Some(i)) => match spec_index_to_color(i) {
            Some(color) => Some(Placement::Lasor(LasorKind::Still, color)),
            None => None,
        },
        ('H', Some(i)) => match spec_index_to_color(i) {
            Some(color) => Some(Placement::Lasor(LasorKind::Aiming, color)),
            None => None,
        },
        ('B', Some(i)) => Some(Placement::Button(i)),
        ('w', Some(i)) => match spec_index_to_color(i) {
            Some(color) => Some(Placement::Respawn(color)),
            None => None,
        },
        ('W', Some(i)) => match spec_index_to_color(i) {
            Some(color) => Some(Placement::Warp(color)),
            None => None,
        },
        (' ', None) => Some(Placement::Nothing),
        _ => None,
    }
}

/// Reads one grid square of a level file.
pub fn placement(sym: char, idx: Option<u32>) -> (r: Option<Placement>)
    ensures
        r == spec_placement(sym, idx),
{
    match (sym, idx) {
        ('P', None) => Some(Placement::Player),
        ('@', None) => Some(Placement::Star),
        ('-', None) => Some(Placement::Wall),
        ('+', None) => Some(Placement::Floor),
        ('I', Some(i)) => Some(Placement::Gate(i)),
        ('C', i) => Some(Placement::Platform(PlatformKind::Circle, i)),
        ('c', i) => Some(Placement::Platform(PlatformKind::ReverseCircle, i)),
        ('A', i) => Some(Placement::Platform(PlatformKind::UpDown, i)),
        ('V', i) => Some(Placement::Platform(PlatformKind::DownUp, i)),
        ('>', i) => Some(Placement::Platform(PlatformKind::RightLeft, i)),
        ('<', i) => Some(Placement::Platform(PlatformKind::LeftRight, i)),
        ('L', Some(i)) => match index_to_color(i) {
            Some(color) => Some(Placement::Lasor(LasorKind::Still, color)),
            None => None,
        },
        ('H', Some(i)) => match index_to_color(i) {
            Some(color) => Some(Placement::Lasor(LasorKind::Aiming, color)),
            None => None,
        },
        ('B', Some(i)) => Some(Placement::Button(i)),
        ('w', Some(i)) => match index_to_color(i) {
            Some(color) => Some(Placement::Respawn(color)),
            None => None,
        },
        ('W', Some(i)) => match index_to_color(i) {
            Some(color) => Some(Placement::Warp(color)),
            None => None,
        },
        (' ', None) => Some(Placement::Nothing),
        _ => None,
    }
}

/// The character at `(x, y)` of a file whose lines are `rows`, top line
/// first and bottom line row 0.
pub open spec fn char_at(rows: Seq<Seq<char>>, x: int, y: int) -> Option<char> {
    let r = rows.len() - 1 - y;
    if 0 <= x && 0 <= r < rows.len() && x < rows[r].len() {
        Some(rows[r][x])
    } else {
        None
    }
}

/// Whether lines `rows` make a room: there is a line, and the counts fit.
pub open spec fn has_room(rows: Seq<Seq<char>>) -> bool {
    &&& rows.len() > 0
    &&& rows.len() <= i32::MAX
    &&& rows[0].len() - 1 <= i32::MAX
}

/// The room of a level file: one column fewer than its first line is long,
/// and as many rows as it has lines.
pub open spec fn room_of(rows: Seq<Seq<char>>) -> Idx2 {
    ((rows[0].len() - 1) as i32, rows.len() as i32)
}

/// What the level square `(x, y)` asks for, with the group digit from the
/// index file; `None` for a combination the format does not have.
pub open spec fn square(level: Seq<Seq<char>>, index: Seq<Seq<char>>, x: int, y: int) -> Option<Placement> {
    match char_at(level, x, y) {
        Some(c) => spec_placement(
            c,
            match char_at(index, x, y) {
                Some(d) => spec_digit(d),
                None => None,
            },
        ),
        None => None,
    }
}

/// Whether the square `(x, y)` can be placed: it is a known combination,
/// and a respawn pad has room for its right half.
pub open spec fn square_ok(level: Seq<Seq<char>>, index: Seq<Seq<char>>, x: int, y: int) -> bool {
    match square(level, index, x, y) {
        Some(Placement::Respawn(_)) => x + 1 < room_of(level).0,
        Some(_) => true,
        None => false,
    }
}

/// Whether `(a, b)` comes before `(x, y)` in the scan: row by row from the
/// bottom, left to right.
pub open spec fn scanned_before(a: int, b: int, x: int, y: int) -> bool {
    b < y || (b == y && a < x)
}

/// The placements of the squares scanned before `(x, y)`, with their
/// positions: rows from the bottom, each from left to right. Squares that
/// make no placement are left out.
pub open spec fn placements_before(
    level: Seq<Seq<char>>,
    index: Seq<Seq<char>>,
    x: int,
    y: int,
) -> Seq<(Idx2, Placement)>
    decreases y, x,
{
    if x > 0 {
        let s = placements_before(level, index, x - 1, y);
        match square(level, index, x - 1, y) {
            Some(p) => s.push((((x - 1) as i32, y as i32), p)),
            None => s,
        }
    } else if y > 0 {
        placements_before(level, index, room_of(level).0 as int, y - 1)
    } else {
        Seq::empty()
    }
}

/// The placements of the whole room, in scan order.
pub open spec fn all_placements(level: Seq<Seq<char>>, index: Seq<Seq<char>>) -> Seq<(Idx2, Placement)> {
    placements_before(level, index, 0, room_of(level).1 as int)
}

/// The position of the last player start in `s`.
pub open spec fn player_in(s: Seq<(Idx2, Placement)>) -> Option<Idx2>
    decreases s.len(),
{
    if s.len() == 0 {
        None
    } else if s.last().1 == Placement::Player {
        Some(s.last().0)
    } else {
        player_in(s.drop_last())
    }
}

/// The position of the last star in `s`.
pub open spec fn star_in(s: Seq<(Idx2, Placement)>) -> Option<Idx2>
    decreases s.len(),
{
    if s.len() == 0 {
        None
    } else if s.last().1 == Placement::Star {
        Some(s.last().0)
    } else {
        star_in(s.drop_last())
    }
}

pub open spec fn warps_in(s: Seq<(Idx2, Placement)>) -> Seq<(Idx2, WarpColor)>
    decreases s.len(),
{
    if s.len() == 0 {
        Seq::empty()
    } else {
        match s.last().1 {
            Placement::Warp(c) => warps_in(s.drop_last()).push((s.last().0, c)),
            _ => warps_in(s.drop_last()),
        }
    }
}

pub open spec fn lasors_in(s: Seq<(Idx2, Placement)>) -> Seq<(Idx2, LasorKind, WarpColor)>
    decreases s.len(),
{
    if s.len() == 0 {
        Seq::empty()
    } else {
        match s.last().1 {
            Placement::Lasor(k, c) => lasors_in(s.drop_last()).push((s.last().0, k, c)),
            _ => lasors_in(s.drop_last()),
        }
    }
}

/// Platforms outside any trigger group.
pub open spec fn free_platforms_in(s: Seq<(Idx2, Placement)>) -> Seq<(Idx2, PlatformKind)>
    decreases s.len(),
{
    if s.len() == 0 {
        Seq::empty()
    } else {
        match s.last().1 {
            Placement::Platform(k, None) => free_platforms_in(s.drop_last()).push((s.last().0, k)),
            _ => free_platforms_in(s.drop_last()),
        }
    }
}

/// Platforms of a trigger group, with the group.
pub open spec fn grouped_platforms_in(s: Seq<(Idx2, Placement)>) -> Seq<(u32, Idx2, PlatformKind)>
    decreases s.len(),
{
    if s.len() == 0 {
        Seq::empty()
    } else {
        match s.last().1 {
            Placement::Platform(k, Some(i)) => grouped_platforms_in(s.drop_last()).push(
                (i, s.last().0, k),
            ),
            _ => grouped_platforms_in(s.drop_last()),
        }
    }
}

pub open spec fn gates_in(s: Seq<(Idx2, Placement)>) -> Seq<(u32, Idx2)>
    decreases s.len(),
{
    if s.len() == 0 {
        Seq::empty()
    } else {
        match s.last().1 {
            Placement::Gate(i) => gates_in(s.drop_last()).push((i, s.last().0)),
            _ => gates_in(s.drop_last()),
        }
    }
}

pub open spec fn buttons_in(s: Seq<(Idx2, Placement)>) -> Seq<(u32, Idx2)>
    decreases s.len(),
{
    if s.len() == 0 {
        Seq::empty()
    } else {
        match s.last().1 {
            Placement::Button(i) => buttons_in(s.drop_last()).push((i, s.last().0)),
            _ => buttons_in(s.drop_last()),
        }
    }
}

/// The trigger group a placement names, if any.
pub open spec fn group_of(p: Placement) -> Option<u32> {
    match p {
        Placement::Gate(i) => Some(i),
        Placement::Platform(_, Some(i)) => Some(i),
        Placement::Button(i) => Some(i),
        _ => None,
    }
}

/// The trigger groups named in `s`, each once, in order of first mention.
pub open spec fn groups_in(s: Seq<(Idx2, Placement)>) -> Seq<u32>
    decreases s.len(),
{
    if s.len() == 0 {
        Seq::empty()
    } else {
        let g = groups_in(s.drop_last());
        match group_of(s.last().1) {
            Some(i) => if g.contains(i) {
                g
            } else {
                g.push(i)
            },
            None => g,
        }
    }
}

/// The position of the last respawn pad of `color` in `s`.
pub open spec fn respawn_in(s: Seq<(Idx2, Placement)>, color: WarpColor) -> Option<Idx2>
    decreases s.len(),
{
    if s.len() == 0 {
        None
    } else if s.last().1 == Placement::Respawn(color) {
        Some(s.last().0)
    } else {
        respawn_in(s.drop_last(), color)
    }
}

/// The grid cell that a placement puts at its own square.
pub open spec fn grid_part(p: Option<Placement>) -> Option<PendingCell> {
    match p {
        Some(Placement::Wall) => Some(PendingCell::Wall),
        Some(Placement::Floor) => Some(PendingCell::Floor),
        Some(Placement::Gate(_)) => Some(PendingCell::Gate),
        Some(Placement::Respawn(c)) => Some(PendingCell::Spawn(c, false)),
        _ => None,
    }
}

/// The right half of a respawn pad placed just left of `(a, b)`.
pub open spec fn right_half(level: Seq<Seq<char>>, index: Seq<Seq<char>>, a: int, b: int) -> Option<PendingCell> {
    if a >= 1 {
        match square(level, index, a - 1, b) {
            Some(Placement::Respawn(c)) => Some(PendingCell::Spawn(c, true)),
            _ => None,
        }
    } else {
        None
    }
}

/// The grid cell at `(a, b)` once the whole room is read: the square's own
/// cell if it places one, else the right half of a pad to its left.
pub open spec fn pending_text(level: Seq<Seq<char>>, index: Seq<Seq<char>>, a: int, b: int) -> Option<PendingCell> {
    match grid_part(square(level, index, a, b)) {
        Some(p) => Some(p),
        None => right_half(level, index, a, b),
    }
}

/// The grid cell at `(a, b)` when the scan has reached `(x, y)`.
pub open spec fn pending_before(
    level: Seq<Seq<char>>,
    index: Seq<Seq<char>>,
    a: int,
    b: int,
    x: int,
    y: int,
) -> Option<PendingCell> {
    if scanned_before(a, b, x, y) {
        pending_text(level, index, a, b)
    } else if a == x && b == y {
        right_half(level, index, a, b)
    } else {
        None
    }
}

/// Whether the builder state `v` holds exactly the placements of the level
/// with lines `level` and group digits `index`.
pub open spec fn loaded_view(v: BuilderView, level: Seq<Seq<char>>, index: Seq<Seq<char>>) -> bool {
    let s = all_placements(level, index);
    &&& v.wf()
    &&& v.dims == room_of(level)
    &&& v.player == player_in(s)
    &&& v.star == star_in(s)
    &&& v.platforms == free_platforms_in(s)
    &&& v.group_platforms == grouped_platforms_in(s)
    &&& v.gates == gates_in(s)
    &&& v.buttons == buttons_in(s)
    &&& v.groups == groups_in(s)
    &&& v.warps == warps_in(s)
    &&& v.lasors == lasors_in(s)
    &&& forall|c: WarpColor| #[trigger] v.respawns.spec_get(c) == respawn_in(s, c)
    &&& forall|a: int, b: int|
        in_room(v.dims, a, b) ==> #[trigger] v.pending.at(a, b) == pending_text(level, index, a, b)
}

/// Why a level file does not load.
#[derive(Clone, Copy, Debug)]
pub enum LoadError {
    /// The level or index file has no non-empty line, or the room is too
    /// large to hold.
    NoRoom,
    /// The symbol and group digit at this square make no placement.
    UnknownSymbol(Idx2),
    /// The respawn pad at this square has no room for its right half.
    RespawnAtEdge(Idx2),
    /// The placements do not make a board.
    Build(BuildError),
}

/// Whether every square of the room can be placed.
pub open spec fn all_squares_ok(level: Seq<Seq<char>>, index: Seq<Seq<char>>) -> bool {
    forall|a: int, b: int| in_room(room_of(level), a, b) ==> #[trigger] square_ok(level, index, a, b)
}

/// The outcome of reading a level, as far as it is decided before building:
/// the files give no room, or a square cannot be placed (the first in scan
/// order), or else every square can be.
pub open spec fn read_outcome(level: Seq<Seq<char>>, index: Seq<Seq<char>>, e: Option<LoadError>) -> bool {
    match e {
        Some(LoadError::NoRoom) => !has_room(level) || !has_room(index) || room_of(level).0
            * room_of(level).1 > usize::MAX,
        Some(LoadError::UnknownSymbol(p)) => {
            &&& has_room(level) && has_room(index) && room_of(level).0 * room_of(level).1 <= usize::MAX
            &&& in_room(room_of(level), p.0 as int, p.1 as int)
            &&& square(level, index, p.0 as int, p.1 as int) is None
            &&& forall|a: int, b: int|
                in_room(room_of(level), a, b) && scanned_before(a, b, p.0 as int, p.1 as int)
                    ==> #[trigger] square_ok(level, index, a, b)
        },
        Some(LoadError::RespawnAtEdge(p)) => {
            &&& has_room(level) && has_room(index) && room_of(level).0 * room_of(level).1 <= usize::MAX
            &&& in_room(room_of(level), p.0 as int, p.1 as int)
            &&& square(level, index, p.0 as int, p.1 as int) matches Some(Placement::Respawn(_))
            &&& p.0 + 1 == room_of(level).0
            &&& forall|a: int, b: int|
                in_room(room_of(level), a, b) && scanned_before(a, b, p.0 as int, p.1 as int)
                    ==> #[trigger] square_ok(level, index, a, b)
        },
        Some(LoadError::Build(_)) => false,
        None => {
            &&& has_room(level) && has_room(index) && room_of(level).0 * room_of(level).1 <= usize::MAX
            &&& all_squares_ok(level, index)
        },
    }
}

/// Reads a level from its symbol file and its group-digit index file: scans
/// the room row by row from the bottom, left to right, and hands each
/// square's placement to a new builder. Fails at the first square in that
/// order that cannot be placed.
pub fn load_builder(level_text: &str, index_text: &str) -> (r: Result<GameBoardBuilder, LoadError>)
    ensures
        match r {
            Ok(b) => {
                &&& read_outcome(level_rows(level_text@), level_rows(index_text@), None)
                &&& loaded_view(b@, level_rows(level_text@), level_rows(index_text@))
            },
            Err(e) => read_outcome(level_rows(level_text@), level_rows(index_text@), Some(e)),
        },
{
    let level = match LevelFile::new(level_text) {
        Some(f) => f,
        None => return Err(LoadError::NoRoom),
    };
    let level_index = match LevelFile::new(index_text) {
        Some(f) => f,
        None => return Err(LoadError::NoRoom),
    };
    let ghost lr = level_rows(level_text@);
    let ghost ir = level_rows(index_text@);
    let dims = level.room_dims();
    if (dims.0 as usize).checked_mul(dims.1 as usize).is_none() {
        return Err(LoadError::NoRoom);
    }
    let mut board = GameBoardBuilder::new(dims);
    let ghost mut placed: Seq<(Idx2, Placement)> = Seq::empty();
    proof {
        assert forall|a: int, b: int| in_room(dims, a, b) implies #[trigger] board@.pending.at(a, b)
            == pending_before(lr, ir, a, b, 0, 0) by {}
        assert forall|c: WarpColor| #[trigger] board@.respawns.spec_get(c) == respawn_in(placed, c) by {
            match c {
                WarpColor::Green => {},
                WarpColor::Blue => {},
                WarpColor::Pink => {},
            }
        }
    }
    let mut y: i32 = 0;
    while y < dims.1
        invariant
            lr == level_rows(level_text@),
            ir == level_rows(index_text@),
            dims == room_of(lr),
            level.rows() == lr,
            level.dims() == dims,
            level_index.rows() == ir,
            level_index.dims().1 == ir.len(),
            has_room(lr) && has_room(ir),
            dims.0 * dims.1 <= usize::MAX,
            0 <= y <= dims.1,
            board@.wf(),
            board@.dims == dims,
            forall|a: int, b: int|
                in_room(dims, a, b) && b < y ==> #[trigger] square_ok(lr, ir, a, b),
            placed == placements_before(lr, ir, 0, y as int),
            board@.player == player_in(placed),
            board@.star == star_in(placed),
            board@.platforms == free_platforms_in(placed),
            board@.group_platforms == grouped_platforms_in(placed),
            board@.gates == gates_in(placed),
            board@.buttons == buttons_in(placed),
            board@.groups == groups_in(placed),
            board@.warps == warps_in(placed),
            board@.lasors == lasors_in(placed),
            forall|c: WarpColor| #[trigger] board@.respawns.spec_get(c) == respawn_in(placed, c),
            forall|a: int, b: int|
                in_room(dims, a, b) ==> #[trigger] board@.pending.at(a, b) == pending_before(
                    lr,
                    ir,
                    a,
                    b,
                    0,
                    y as int,
                ),
        decreases dims.1 - y,
    {
        let mut x: i32 = 0;
        while x < dims.0
            invariant
                lr == level_rows(level_text@),
                ir == level_rows(index_text@),
                dims == room_of(lr),
                level.rows() == lr,
                level.dims() == dims,
                level_index.rows() == ir,
                level_index.dims().1 == ir.len(),
                has_room(lr) && has_room(ir),
                dims.0 * dims.1 <= usize::MAX,
                0 <= y < dims.1,
                0 <= x <= dims.0,
                board@.wf(),
                board@.dims == dims,
                forall|a: int, b: int|
                    in_room(dims, a, b) && scanned_before(a, b, x as int, y as int)
                        ==> #[trigger] square_ok(lr, ir, a, b),
                placed == placements_before(lr, ir, x as int, y as int),
                board@.player == player_in(placed),
                board@.star == star_in(placed),
                board@.platforms == free_platforms_in(placed),
                board@.group_platforms == grouped_platforms_in(placed),
                board@.gates == gates_in(placed),
                board@.buttons == buttons_in(placed),
                board@.groups == groups_in(placed),
                board@.warps == warps_in(placed),
                board@.lasors == lasors_in(placed),
                forall|c: WarpColor| #[trigger] board@.respawns.spec_get(c) == respawn_in(placed, c),
                forall|a: int, b: int|
                    in_room(dims, a, b) ==> #[trigger] board@.pending.at(a, b) == pending_before(
                        lr,
                        ir,
                        a,
                        b,
                        x as int,
                        y as int,
                    ),
            decreases dims.0 - x,
        {
            let pos = (x, y);
            let sym = match level.get(pos) {
                Some(c) => c,
                None => return Err(LoadError::UnknownSymbol(pos)),
            };
            let idx = match level_index.get(pos) {
                Some(d) => digit(d),
                None => None,
            };
            let p = match placement(sym, idx) {
                Some(p) => p,
                None => return Err(LoadError::UnknownSymbol(pos)),
            };
            if let Placement::Respawn(_) = p {
                if x + 1 >= dims.0 {
                    return Err(LoadError::RespawnAtEdge(pos));
                }
            }
            let ghost before = board@;
            let ghost next = placed.push((pos, p));
            proof {
                assert(square(lr, ir, x as int, y as int) == Some(p));
                assert(next == placements_before(lr, ir, x + 1, y as int));
                assert(next.drop_last() =~= placed);
            }
            match p {
                Placement::Nothing => {},
                Placement::Player => board.add_player(pos),
                Placement::Star => board.add_star(pos),
                Placement::Wall => board.add_wall(pos),
                Placement::Floor => board.add_floor(pos),
                Placement::Gate(i) => board.add_gate(pos, i),
                Placement::Platform(kind, i) => board.add_platform(pos, kind, i),
                Placement::Lasor(kind, color) => board.add_lasor(pos, kind, color),
                Placement::Button(i) => board.add_button(pos, i),
                Placement::Respawn(color) => board.add_respawn(pos, color),
                Placement::Warp(color) => board.add_warp(pos, color),
            }
            proof {
                placed = next;
                assert forall|c: WarpColor| #[trigger] board@.respawns.spec_get(c) == respawn_in(placed, c) by {
                    assert(before.respawns.spec_get(c) == respawn_in(placed.drop_last(), c));
                }
                assert forall|a: int, b: int| in_room(dims, a, b) implies #[trigger] board@.pending.at(a, b)
                    == pending_before(lr, ir, a, b, x + 1, y as int) by {
                    assert(before.pending.at(a, b) == pending_before(lr, ir, a, b, x as int, y as int));
                }
            }
            x = x + 1;
        }
        proof {
            assert(placements_before(lr, ir, 0, y + 1) == placements_before(lr, ir, dims.0 as int, y as int));
            assert forall|a: int, b: int| in_room(dims, a, b) implies #[trigger] board@.pending.at(a, b)
                == pending_before(lr, ir, a, b, 0, y + 1) by {
                assert(board@.pending.at(a, b) == pending_before(lr, ir, a, b, dims.0 as int, y as int));
            }
        }
        y = y + 1;
    }
    Ok(board)
}

/// Reads a level from its symbol file and its group-digit index file and
/// builds its board: the builder state is the one `load_builder` reads, and
/// the board or build error is what `build` makes of it.
pub fn load(level_text: &str, index_text: &str) -> (r: Result<BoardLayout, LoadError>)
    ensures
        match r {
            Ok(b) => {
                &&& read_outcome(level_rows(level_text@), level_rows(index_text@), None)
                &&& exists|v: BuilderView|
                    #[trigger] loaded_view(v, level_rows(level_text@), level_rows(index_text@))
                        && built(v, Ok(b))
            },
            Err(LoadError::Build(e)) => {
                &&& read_outcome(level_rows(level_text@), level_rows(index_text@), None)
                &&& exists|v: BuilderView|
                    #[trigger] loaded_view(v, level_rows(level_text@), level_rows(index_text@))
                        && built(v, Err(e))
            },
            Err(e) => read_outcome(level_rows(level_text@), level_rows(index_text@), Some(e)),
        },
{
    let board = match load_builder(level_text, index_text) {
        Ok(board) => board,
        Err(e) => return Err(e),
    };
    let ghost v = board@;
    match board.build() {
        Ok(b) => {
            assert(loaded_view(v, level_rows(level_text@), level_rows(index_text@)) && built(v, Ok(b)));
            Ok(b)
        },
        Err(e) => {
            assert(loaded_view(v, level_rows(level_text@), level_rows(index_text@)) && built(v, Err(e)));
            Err(LoadError::Build(e))
        },
    }
}

} // verus!
