use vstd::prelude::*;
use crate::util::{Idx2, IdGen, Card, card_offset};
use crate::cell::{Cell, spec_wall_tile_and_transform, spec_floor_tile, spec_spawn_tile, CellKind, CellTransform};
use crate::grid::{Grid, in_room, index_of, column_of, row_of, lemma_slot_position};
use crate::platform::PlatformKind;
use crate::warp::{WarpColor, LasorKind};
use crate::board::ButtonAction;

verus! {

/// A grid cell as placed, before its tile is chosen.
#[derive(Clone, Copy, Debug, PartialEq, Eq, Structural, Hash)]
pub enum PendingCell {
    Wall,
    Floor,
    Gate,
    /// One half of a respawn pad; `true` for the right half.
    Spawn(WarpColor, bool),
}

/// The respawn point registered for each warp color, as the grid position
/// of the pad's left half.
#[derive(Clone, Copy, Debug)]
pub struct Respawns {
    pub green: Option<Idx2>,
    pub blue: Option<Idx2>,
    pub pink: Option<Idx2>,
}

impl Respawns {
    pub open spec fn spec_get(self, color: WarpColor) -> Option<Idx2> {
        match color {
            WarpColor::Green => self.green,
            WarpColor::Blue => self.blue,
            WarpColor::Pink => self.pink,
        }
    }

    pub fn get(&self, color: WarpColor) -> (r: Option<Idx2>)
        ensures
            r == self.spec_get(color),
    {
        match color {
            WarpColor::Green => self.green,
            WarpColor::Blue => self.blue,
            WarpColor::Pink => self.pink,
        }
    }
}

/// A lasor with the direction it faces, away from the wall it is mounted on.
#[derive(Clone, Copy, Debug)]
pub struct LasorMount {
    pub pos: Idx2,
    pub kind: LasorKind,
    pub color: WarpColor,
    pub card: Card,
}

/// Collects the placements of a level, then checks them and turns them into
/// the initial layout of the board.
pub struct GameBoardBuilder {
    room_dims: Idx2,
    player: Option<Idx2>,
    star: Option<Idx2>,
    platforms: Vec<(Idx2, PlatformKind)>,
    grid: Grid<PendingCell>,
    groups: Vec<u32>,
    gates: Vec<(u32, Idx2)>,
    group_platforms: Vec<(u32, Idx2, PlatformKind)>,
    buttons: Vec<(u32, Idx2)>,
    warps: Vec<(Idx2, WarpColor)>,
    respawns: Respawns,
    lasors: Vec<(Idx2, LasorKind, WarpColor)>,
}

/// The placements collected by a builder.
pub struct BuilderView {
    pub dims: Idx2,
    pub player: Option<Idx2>,
    pub star: Option<Idx2>,
    /// Platforms placed outside any trigger group, in order.
    pub platforms: Seq<(Idx2, PlatformKind)>,
    /// The grid cells placed so far.
    pub pending: Grid<PendingCell>,
    /// The trigger groups named so far, each once, in order of first mention.
    pub groups: Seq<u32>,
    /// Gate placements with their group, in order.
    pub gates: Seq<(u32, Idx2)>,
    /// Platform placements with their group, in order.
    pub group_platforms: Seq<(u32, Idx2, PlatformKind)>,
    /// Button placements with their group, in order.
    pub buttons: Seq<(u32, Idx2)>,
    pub warps: Seq<(Idx2, WarpColor)>,
    pub respawns: Respawns,
    pub lasors: Seq<(Idx2, LasorKind, WarpColor)>,
}

impl View for GameBoardBuilder {
    type V = BuilderView;

    closed spec fn view(&self) -> BuilderView {
        BuilderView {
            dims: self.room_dims,
            player: self.player,
            star: self.star,
            platforms: self.platforms@,
            pending: self.grid,
            groups: self.groups@,
            gates: self.gates@,
            group_platforms: self.group_platforms@,
            buttons: self.buttons@,
            warps: self.warps@,
            respawns: self.respawns,
            lasors: self.lasors@,
        }
    }
}

impl BuilderView {
    pub open spec fn wf(self) -> bool {
        &&& self.pending.wf()
        &&& self.pending.dims() == self.dims
        &&& self.dims.0 * self.dims.1 <= usize::MAX
        &&& self.groups.no_duplicates()
    }

    /// `groups` with `index` added at the end if it is new.
    pub open spec fn with_group(self, index: u32) -> Seq<u32> {
        if self.groups.contains(index) {
            self.groups
        } else {
            self.groups.push(index)
        }
    }
}

impl GameBoardBuilder {
    /// An empty room of `room_dims` columns and rows.
    pub fn new(room_dims: Idx2) -> (r: GameBoardBuilder)
        requires
            room_dims.0 >= 0,
            room_dims.1 >= 0,
            room_dims.0 * room_dims.1 <= usize::MAX,
        ensures
            r@.wf(),
            r@.dims == room_dims,
            r@.player is None,
            r@.star is None,
            r@.platforms == Seq::<(Idx2, PlatformKind)>::empty(),
            forall|a: int, b: int| #[trigger] r@.pending.at(a, b) is None,
            r@.groups == Seq::<u32>::empty(),
            r@.gates == Seq::<(u32, Idx2)>::empty(),
            r@.group_platforms == Seq::<(u32, Idx2, PlatformKind)>::empty(),
            r@.buttons == Seq::<(u32, Idx2)>::empty(),
            r@.warps == Seq::<(Idx2, WarpColor)>::empty(),
            r@.respawns.green is None && r@.respawns.blue is None && r@.respawns.pink is None,
            r@.lasors == Seq::<(Idx2, LasorKind, WarpColor)>::empty(),
    {
        let grid = Grid::new(room_dims);
        let r = GameBoardBuilder {
            room_dims,
            player: None,
            star: None,
            platforms: Vec::new(),
            grid,
            groups: Vec::new(),
            gates: Vec::new(),
            group_platforms: Vec::new(),
            buttons: Vec::new(),
            warps: Vec::new(),
            respawns: Respawns { green: None, blue: None, pink: None },
            lasors: Vec::new(),
        };
        assert forall|a: int, b: int| #[trigger] r@.pending.at(a, b) is None by {
            if in_room(room_dims, a, b) {
                crate::grid::lemma_index_in_range(room_dims, a, b);
            }
        }
        r
    }

    /// Records trigger group `index` if it is new.
    fn note_group(&mut self, index: u32)
        requires
            old(self)@.groups.no_duplicates(),
        ensures
            final(self)@ == (BuilderView { groups: old(self)@.with_group(index), ..old(self)@ }),
            final(self)@.groups.no_duplicates(),
    {
        let mut i: usize = 0;
        while i < self.groups.len()
            invariant
                i <= self.groups@.len(),
                self.groups@ == old(self).groups@,
                self.groups@.no_duplicates(),
                forall|k: int| 0 <= k < i ==> self.groups@[k] != index,
            decreases self.groups@.len() - i,
        {
            if self.groups[i] == index {
                assert(self.groups@.contains(index));
                return;
            }
            i = i + 1;
        }
        assert(!self.groups@.contains(index));
        self.groups.push(index);
        assert(self.groups@.no_duplicates()) by {
            assert forall|a: int, b: int|
                0 <= a < self.groups@.len() && 0 <= b < self.groups@.len() && a != b implies
                self.groups@[a] != self.groups@[b] by {
                if a < old(self).groups@.len() && b < old(self).groups@.len() {
                    assert(old(self).groups@[a] != old(self).groups@[b]);
                }
            }
        }
    }

    /// Puts `cell` at `pos`, in the room.
    fn place(&mut self, pos: Idx2, cell: PendingCell)
        requires
            old(self)@.wf(),
            in_room(old(self)@.dims, pos.0 as int, pos.1 as int),
        ensures
            final(self)@ == (BuilderView { pending: final(self)@.pending, ..old(self)@ }),
            final(self)@.wf(),
            forall|a: int, b: int|
                #[trigger] final(self)@.pending.at(a, b) == if a == pos.0 && b == pos.1 {
                    Some(cell)
                } else {
                    old(self)@.pending.at(a, b)
                },
    {
        self.grid.set(pos.0, pos.1, Some(cell));
    }

    pub fn add_player(&mut self, pos: Idx2)
        ensures
            final(self)@ == (BuilderView { player: Some(pos), ..old(self)@ }),
    {
        self.player = Some(pos);
    }

    pub fn add_star(&mut self, pos: Idx2)
        ensures
            final(self)@ == (BuilderView { star: Some(pos), ..old(self)@ }),
    {
        self.star = Some(pos);
    }

    pub fn add_wall(&mut self, pos: Idx2)
        requires
            old(self)@.wf(),
            in_room(old(self)@.dims, pos.0 as int, pos.1 as int),
        ensures
            final(self)@ == (BuilderView { pending: final(self)@.pending, ..old(self)@ }),
            final(self)@.wf(),
            forall|a: int, b: int|
                #[trigger] final(self)@.pending.at(a, b) == if a == pos.0 && b == pos.1 {
                    Some(PendingCell::Wall)
                } else {
                    old(self)@.pending.at(a, b)
                },
    {
        self.place(pos, PendingCell::Wall);
    }

    pub fn add_floor(&mut self, pos: Idx2)
        requires
            old(self)@.wf(),
            in_room(old(self)@.dims, pos.0 as int, pos.1 as int),
        ensures
            final(self)@ == (BuilderView { pending: final(self)@.pending, ..old(self)@ }),
            final(self)@.wf(),
            forall|a: int, b: int|
                #[trigger] final(self)@.pending.at(a, b) == if a == pos.0 && b == pos.1 {
                    Some(PendingCell::Floor)
                } else {
                    old(self)@.pending.at(a, b)
                },
    {
        self.place(pos, PendingCell::Floor);
    }

    /// A platform; with a trigger group it appears only when that group's
    /// button is pressed.
    pub fn add_platform(&mut self, pos: Idx2, kind: PlatformKind, index: Option<u32>)
        requires
            old(self)@.wf(),
        ensures
            final(self)@.wf(),
            match index {
                Some(i) => final(self)@ == (BuilderView {
                    groups: old(self)@.with_group(i),
                    group_platforms: old(self)@.group_platforms.push((i, pos, kind)),
                    ..old(self)@
                }),
                None => final(self)@ == (BuilderView {
                    platforms: old(self)@.platforms.push((pos, kind)),
                    ..old(self)@
                }),
            },
    {
        if let Some(index) = index {
            self.note_group(index);
            self.group_platforms.push((index, pos, kind));
        } else {
            self.platforms.push((pos, kind));
        }
    }

    /// A gate cell, removed when the button of group `index` is pressed.
    pub fn add_gate(&mut self, pos: Idx2, index: u32)
        requires
            old(self)@.wf(),
            in_room(old(self)@.dims, pos.0 as int, pos.1 as int),
        ensures
            final(self)@ == (BuilderView {
                pending: final(self)@.pending,
                groups: old(self)@.with_group(index),
                gates: old(self)@.gates.push((index, pos)),
                ..old(self)@
            }),
            final(self)@.wf(),
            forall|a: int, b: int|
                #[trigger] final(self)@.pending.at(a, b) == if a == pos.0 && b == pos.1 {
                    Some(PendingCell::Gate)
                } else {
                    old(self)@.pending.at(a, b)
                },
    {
        self.place(pos, PendingCell::Gate);
        self.note_group(index);
        self.gates.push((index, pos));
    }

    /// The button of group `index`; a later placement for the same group
    /// replaces an earlier one.
    pub fn add_button(&mut self, pos: Idx2, index: u32)
        requires
            old(self)@.wf(),
        ensures
            final(self)@.wf(),
            final(self)@ == (BuilderView {
                groups: old(self)@.with_group(index),
                buttons: old(self)@.buttons.push((index, pos)),
                ..old(self)@
            }),
    {
        self.note_group(index);
        self.buttons.push((index, pos));
    }

    /// A stationary warp portal.
    pub fn add_warp(&mut self, pos: Idx2, color: WarpColor)
        ensures
            final(self)@ == (BuilderView { warps: old(self)@.warps.push((pos, color)), ..old(self)@ }),
    {
        self.warps.push((pos, color));
    }

    /// The respawn pad of `color`: two cells, at `pos` and to its right.
    pub fn add_respawn(&mut self, pos: Idx2, color: WarpColor)
        requires
            old(self)@.wf(),
            in_room(old(self)@.dims, pos.0 as int, pos.1 as int),
            in_room(old(self)@.dims, pos.0 + 1, pos.1 as int),
        ensures
            final(self)@ == (BuilderView {
                pending: final(self)@.pending,
                respawns: final(self)@.respawns,
                ..old(self)@
            }),
            final(self)@.wf(),
            forall|a: int, b: int|
                #[trigger] final(self)@.pending.at(a, b) == if a == pos.0 && b == pos.1 {
                    Some(PendingCell::Spawn(color, false))
                } else if a == pos.0 + 1 && b == pos.1 {
                    Some(PendingCell::Spawn(color, true))
                } else {
                    old(self)@.pending.at(a, b)
                },
            forall|c: WarpColor|
                #[trigger] final(self)@.respawns.spec_get(c) == if c == color {
                    Some(pos)
                } else {
                    old(self)@.respawns.spec_get(c)
                },
    {
        self.place(pos, PendingCell::Spawn(color, false));
        self.place((pos.0 + 1, pos.1), PendingCell::Spawn(color, true));
        match color {
            WarpColor::Green => self.respawns.green = Some(pos),
            WarpColor::Blue => self.respawns.blue = Some(pos),
            WarpColor::Pink => self.respawns.pink = Some(pos),
        }
    }

    pub fn add_lasor(&mut self, pos: Idx2, kind: LasorKind, color: WarpColor)
        ensures
            final(self)@ == (BuilderView {
                lasors: old(self)@.lasors.push((pos, kind, color)),
                ..old(self)@
            }),
    {
        self.lasors.push((pos, kind, color));
    }
}

/// What stands at `(x, y)` as far as tiles and mounts are concerned: the
/// placed cell, and a wall anywhere outside the room.
pub open spec fn pending_neighbor(g: Grid<PendingCell>, x: int, y: int) -> Option<PendingCell> {
    if in_room(g.dims(), x, y) {
        g.at(x, y)
    } else {
        Some(PendingCell::Wall)
    }
}

/// Whether the cell at `(x, y)` joins up with a wall next to it: walls and
/// respawn pads do, gates and floors do not.
pub open spec fn joins_wall(g: Grid<PendingCell>, x: int, y: int) -> bool {
    match pending_neighbor(g, x, y) {
        Some(PendingCell::Wall) => true,
        Some(PendingCell::Spawn(_, _)) => true,
        _ => false,
    }
}

/// The eight neighbor flags of `(x, y)`, from the top-left neighbor clockwise.
pub open spec fn wall_neighbors(g: Grid<PendingCell>, x: int, y: int) -> Seq<bool> {
    seq![
        joins_wall(g, x - 1, y + 1),
        joins_wall(g, x, y + 1),
        joins_wall(g, x + 1, y + 1),
        joins_wall(g, x + 1, y),
        joins_wall(g, x + 1, y - 1),
        joins_wall(g, x, y - 1),
        joins_wall(g, x - 1, y - 1),
        joins_wall(g, x - 1, y),
    ]
}

/// The cell that the placement `p` at `(x, y)` becomes, with hitbox `id`.
#[verifier::opaque]
pub open spec fn formed_cell(g: Grid<PendingCell>, x: int, y: int, p: PendingCell, id: u64) -> Cell {
    match p {
        PendingCell::Wall => {
            let t = spec_wall_tile_and_transform(wall_neighbors(g, x, y));
            Cell { id, kind: CellKind::Wall, tile: t.0, transform: t.1 }
        },
        PendingCell::Floor => {
            let t = spec_floor_tile(
                pending_neighbor(g, x - 1, y) is Some,
                pending_neighbor(g, x + 1, y) is Some,
            );
            Cell { id, kind: CellKind::Floor, tile: t.0, transform: t.1 }
        },
        PendingCell::Gate => Cell {
            id,
            kind: CellKind::Wall,
            tile: crate::sprite::SpriteId::TileR1C3,
            transform: CellTransform::Id,
        },
        PendingCell::Spawn(color, mirrored) => Cell {
            id,
            kind: CellKind::Wall,
            tile: spec_spawn_tile(color),
            transform: if mirrored {
                CellTransform::Mirror
            } else {
                CellTransform::Id
            },
        },
    }
}

/// The neighbor of `(x, y)` at offset `(dx, dy)`.
fn neighbor(g: &Grid<PendingCell>, x: i32, y: i32, dx: i32, dy: i32) -> (r: Option<PendingCell>)
    requires
        g.wf(),
    ensures
        r == pending_neighbor(*g, x + dx, y + dy),
{
    let dims = g.room_dims();
    let nx = x as i64 + dx as i64;
    let ny = y as i64 + dy as i64;
    if nx < 0 || ny < 0 || nx >= dims.0 as i64 || ny >= dims.1 as i64 {
        Some(PendingCell::Wall)
    } else {
        g.get(nx, ny)
    }
}

fn joins(g: &Grid<PendingCell>, x: i32, y: i32, dx: i32, dy: i32) -> (r: bool)
    requires
        g.wf(),
    ensures
        r == joins_wall(*g, x + dx, y + dy),
{
    match neighbor(g, x, y, dx, dy) {
        Some(PendingCell::Wall) | Some(PendingCell::Spawn(_, _)) => true,
        _ => false,
    }
}

/// Chooses the tile of the placement `p` at `(x, y)` from its neighbors.
fn form_grid_cell(g: &Grid<PendingCell>, x: i32, y: i32, p: PendingCell, id: u64) -> (r: Cell)
    requires
        g.wf(),
    ensures
        r == formed_cell(*g, x as int, y as int, p, id),
        r.id == id,
{
    reveal(formed_cell);
    match p {
        PendingCell::Wall => {
            let neighbors = [
                joins(g, x, y, -1, 1),
                joins(g, x, y, 0, 1),
                joins(g, x, y, 1, 1),
                joins(g, x, y, 1, 0),
                joins(g, x, y, 1, -1),
                joins(g, x, y, 0, -1),
                joins(g, x, y, -1, -1),
                joins(g, x, y, -1, 0),
            ];
            assert(neighbors@ =~= wall_neighbors(*g, x as int, y as int));
            Cell::wall(id, neighbors)
        },
        PendingCell::Floor => {
            let left = neighbor(g, x, y, -1, 0).is_some();
            let right = neighbor(g, x, y, 1, 0).is_some();
            let neighbors = [left, right];
            Cell::floor(id, neighbors)
        },
        PendingCell::Gate => Cell::gate(id),
        PendingCell::Spawn(color, mirrored) => Cell::spawn(id, color, mirrored),
    }
}

/// Whether the formed grid `cells` matches the placements `g`: the same
/// slots are filled, each with the cell its placement becomes, and hitbox
/// ids rise in row-major order within `[first_id, end_id)`.
pub open spec fn cells_formed(
    g: Grid<PendingCell>,
    cells: Grid<Cell>,
    first_id: int,
    end_id: int,
) -> bool {
    &&& cells.wf()
    &&& cells.dims() == g.dims()
    &&& forall|i: int|
        0 <= i < g.slots().len() ==> (#[trigger] cells.slots()[i] is Some) == (
        g.slots()[i] is Some)
    &&& forall|i: int|
        0 <= i < g.slots().len() && #[trigger] g.slots()[i] is Some ==> {
            &&& cells.slots()[i]->0 == formed_cell(
                g,
                column_of(g.dims(), i),
                row_of(g.dims(), i),
                g.slots()[i]->0,
                cells.slots()[i]->0.id,
            )
            &&& first_id <= cells.slots()[i]->0.id < end_id
        }
    &&& forall|i: int, j: int|
        0 <= i < j < g.slots().len() && #[trigger] cells.slots()[i] is Some
            && #[trigger] cells.slots()[j] is Some ==> cells.slots()[i]->0.id
            < cells.slots()[j]->0.id
}

/// Forms every placed cell, in row-major order, each with a fresh id.
fn form_cells(g: &Grid<PendingCell>, id_gen: &mut IdGen) -> (cells: Grid<Cell>)
    requires
        g.wf(),
        g.dims().0 * g.dims().1 <= usize::MAX,
        old(id_gen).next_id() + g.slots().len() <= u64::MAX,
    ensures
        cells_formed(*g, cells, old(id_gen).next_id() as int, final(id_gen).next_id() as int),
        old(id_gen).next_id() <= final(id_gen).next_id() <= old(id_gen).next_id() + g.slots().len(),
{
    let dims = g.room_dims();
    let mut cells: Grid<Cell> = Grid::new(dims);
    let n = g.len();
    let ghost first = id_gen.next_id();
    let mut i: usize = 0;
    while i < n
        invariant
            g.wf(),
            n == g.slots().len(),
            dims == g.dims(),
            i <= n,
            first + n <= u64::MAX,
            first <= id_gen.next_id() <= first + i,
            cells.wf(),
            cells.dims() == dims,
            forall|k: int| i <= k < n ==> #[trigger] cells.slots()[k] is None,
            forall|k: int|
                0 <= k < i ==> (#[trigger] cells.slots()[k] is Some) == (g.slots()[k] is Some),
            forall|k: int|
                0 <= k < i && #[trigger] g.slots()[k] is Some ==> {
                    &&& cells.slots()[k]->0 == formed_cell(
                        *g,
                        column_of(dims, k),
                        row_of(dims, k),
                        g.slots()[k]->0,
                        cells.slots()[k]->0.id,
                    )
                    &&& first <= cells.slots()[k]->0.id < id_gen.next_id()
                },
            forall|a: int, b: int|
                0 <= a < b < i && #[trigger] cells.slots()[a] is Some
                    && #[trigger] cells.slots()[b] is Some ==> cells.slots()[a]->0.id
                    < cells.slots()[b]->0.id,
        decreases n - i,
    {
        proof {
            lemma_slot_position(dims, i as int);
        }
        let w = dims.0 as usize;
        let x = (i % w) as i32;
        let y = (i / w) as i32;
        assert(x == column_of(dims, i as int) && y == row_of(dims, i as int));
        if let Some(p) = g.get_slot(i) {
            let ghost before = cells.slots();
            let ghost next_before = id_gen.next_id();
            let id = id_gen.next();
            let cell = form_grid_cell(g, x, y, p, id);
            cells.set(x, y, Some(cell));
            assert(cells.slots() == before.update(i as int, Some(cell)));
            assert forall|k: int| 0 <= k < n && k != i implies #[trigger] cells.slots()[k] == before[k] by {}
            assert(cells.slots()[i as int] == Some(cell));
            assert(g.slots()[i as int] == Some(p));
            assert forall|k: int|
                0 <= k < i + 1 && #[trigger] g.slots()[k] is Some implies {
                    &&& cells.slots()[k]->0 == formed_cell(
                        *g,
                        column_of(dims, k),
                        row_of(dims, k),
                        g.slots()[k]->0,
                        cells.slots()[k]->0.id,
                    )
                    &&& first <= cells.slots()[k]->0.id < id_gen.next_id()
                } by {
                if k < i {
                    assert(cells.slots()[k] == before[k]);
                }
            }
            assert forall|a: int, b: int|
                0 <= a < b < i + 1 && #[trigger] cells.slots()[a] is Some
                    && #[trigger] cells.slots()[b] is Some implies cells.slots()[a]->0.id
                < cells.slots()[b]->0.id by {
                if b < i {
                    assert(cells.slots()[a] == before[a]);
                    assert(cells.slots()[b] == before[b]);
                } else {
                    assert(cells.slots()[a] == before[a]);
                    assert(before[a] is Some);
                    assert(g.slots()[a] is Some);
                    assert(before[a]->0.id < next_before);
                }
            }
        }
        i = i + 1;
    }
    cells
}

/// Where the gates of group `g` stand, in placement order.
pub open spec fn gates_of(gates: Seq<(u32, Idx2)>, g: u32) -> Seq<Idx2>
    decreases gates.len(),
{
    if gates.len() == 0 {
        Seq::empty()
    } else if gates.last().0 == g {
        gates_of(gates.drop_last(), g).push(gates.last().1)
    } else {
        gates_of(gates.drop_last(), g)
    }
}

/// The platforms of group `g`, in placement order.
pub open spec fn platforms_of(ps: Seq<(u32, Idx2, PlatformKind)>, g: u32) -> Seq<(Idx2, PlatformKind)>
    decreases ps.len(),
{
    if ps.len() == 0 {
        Seq::empty()
    } else if ps.last().0 == g {
        platforms_of(ps.drop_last(), g).push((ps.last().1, ps.last().2))
    } else {
        platforms_of(ps.drop_last(), g)
    }
}

/// The position of the last button placed for group `g`.
pub open spec fn button_pos(buttons: Seq<(u32, Idx2)>, g: u32) -> Option<Idx2>
    decreases buttons.len(),
{
    if buttons.len() == 0 {
        None
    } else if buttons.last().0 == g {
        Some(buttons.last().1)
    } else {
        button_pos(buttons.drop_last(), g)
    }
}

fn collect_gates(gates: &Vec<(u32, Idx2)>, g: u32) -> (r: Vec<Idx2>)
    ensures
        r@ == gates_of(gates@, g),
{
    let mut r: Vec<Idx2> = Vec::new();
    let mut i: usize = 0;
    while i < gates.len()
        invariant
            i <= gates@.len(),
            r@ == gates_of(gates@.take(i as int), g),
        decreases gates@.len() - i,
    {
        assert(gates@.take(i + 1).drop_last() =~= gates@.take(i as int));
        let (index, pos) = gates[i];
        if index == g {
            r.push(pos);
        }
        i = i + 1;
    }
    assert(gates@.take(i as int) =~= gates@);
    r
}

fn collect_platforms(ps: &Vec<(u32, Idx2, PlatformKind)>, g: u32) -> (r: Vec<(Idx2, PlatformKind)>)
    ensures
        r@ == platforms_of(ps@, g),
{
    let mut r: Vec<(Idx2, PlatformKind)> = Vec::new();
    let mut i: usize = 0;
    while i < ps.len()
        invariant
            i <= ps@.len(),
            r@ == platforms_of(ps@.take(i as int), g),
        decreases ps@.len() - i,
    {
        assert(ps@.take(i + 1).drop_last() =~= ps@.take(i as int));
        let (index, pos, kind) = ps[i];
        if index == g {
            r.push((pos, kind));
        }
        i = i + 1;
    }
    assert(ps@.take(i as int) =~= ps@);
    r
}

fn find_button(buttons: &Vec<(u32, Idx2)>, g: u32) -> (r: Option<Idx2>)
    ensures
        r == button_pos(buttons@, g),
{
    let mut r: Option<Idx2> = None;
    let mut i: usize = 0;
    while i < buttons.len()
        invariant
            i <= buttons@.len(),
            r == button_pos(buttons@.take(i as int), g),
        decreases buttons@.len() - i,
    {
        assert(buttons@.take(i + 1).drop_last() =~= buttons@.take(i as int));
        let (index, pos) = buttons[i];
        if index == g {
            r = Some(pos);
        }
        i = i + 1;
    }
    assert(buttons@.take(i as int) =~= buttons@);
    r
}

/// Whether the cell behind a lasor facing `c` from `(x, y)` is a wall.
pub open spec fn wall_behind(g: Grid<PendingCell>, x: int, y: int, c: Card) -> bool {
    pending_neighbor(g, x + c.spec_flip().spec_offset().0, y + c.spec_flip().spec_offset().1)
        == Some(PendingCell::Wall)
}

/// The first direction, in the order -x, -y, +x, +y, whose opposite
/// neighbor is a wall: the direction a lasor at `(x, y)` faces.
pub open spec fn mount_card(g: Grid<PendingCell>, x: int, y: int) -> Option<Card> {
    if wall_behind(g, x, y, Card::MinusX) {
        Some(Card::MinusX)
    } else if wall_behind(g, x, y, Card::MinusY) {
        Some(Card::MinusY)
    } else if wall_behind(g, x, y, Card::PlusX) {
        Some(Card::PlusX)
    } else if wall_behind(g, x, y, Card::PlusY) {
        Some(Card::PlusY)
    } else {
        None
    }
}

/// Mounts a lasor on the wall next to it; `None` if it has none.
fn form_lasor(g: &Grid<PendingCell>, pos: Idx2, kind: LasorKind, color: WarpColor) -> (r: Option<
    LasorMount,
>)
    requires
        g.wf(),
    ensures
        match mount_card(*g, pos.0 as int, pos.1 as int) {
            Some(card) => r == Some(LasorMount { pos, kind, color, card }),
            None => r is None,
        },
{
    let all_cards = Card::values();
    let mut i: usize = 0;
    while i < all_cards.len()
        invariant
            g.wf(),
            all_cards@ == Card::spec_values(),
            i <= 4,
            forall|k: int| 0 <= k < i ==> !wall_behind(*g, pos.0 as int, pos.1 as int, #[trigger] all_cards@[k]),
        decreases 4 - i,
    {
        let c = all_cards[i];
        let offset = card_offset(c.flip());
        if neighbor(g, pos.0, pos.1, offset.0, offset.1) == Some(PendingCell::Wall) {
            return Some(LasorMount { pos, kind, color, card: c });
        }
        i = i + 1;
    }
    assert(!wall_behind(*g, pos.0 as int, pos.1 as int, all_cards@[0]));
    assert(!wall_behind(*g, pos.0 as int, pos.1 as int, all_cards@[1]));
    assert(!wall_behind(*g, pos.0 as int, pos.1 as int, all_cards@[2]));
    assert(!wall_behind(*g, pos.0 as int, pos.1 as int, all_cards@[3]));
    None
}

/// Whether `view`'s trigger group `g` has a button.
pub open spec fn group_ready(view: BuilderView, g: u32) -> bool {
    button_pos(view.buttons, g) is Some
}

/// Whether the lasor placed `k`-th has a wall next to it.
pub open spec fn lasor_ready(view: BuilderView, k: int) -> bool {
    mount_card(view.pending, view.lasors[k].0.0 as int, view.lasors[k].0.1 as int) is Some
}

/// The button formed for group `g`, with hitbox `id`.
pub open spec fn formed_button(view: BuilderView, g: u32, id: u64, b: (u64, Idx2, ButtonAction)) -> bool {
    &&& b.0 == id
    &&& Some(b.1) == button_pos(view.buttons, g)
    &&& b.2.unlock_cells@ == gates_of(view.gates, g)
    &&& b.2.platforms@ == platforms_of(view.group_platforms, g)
}

/// Bundles each trigger group's gates and platforms with its button, in the
/// order the groups were first named; the buttons take consecutive ids. On
/// failure, returns the first group that has no button.
fn form_buttons(view: Ghost<BuilderView>, groups: &Vec<u32>, gates: &Vec<(u32, Idx2)>, group_platforms: &Vec<(u32, Idx2, PlatformKind)>, buttons: &Vec<(u32, Idx2)>, id_gen: &mut IdGen) -> (r: Result<Vec<(u64, Idx2, ButtonAction)>, u32>)
    requires
        groups@ == view@.groups,
        gates@ == view@.gates,
        group_platforms@ == view@.group_platforms,
        buttons@ == view@.buttons,
        old(id_gen).next_id() + groups@.len() <= u64::MAX,
    ensures
        match r {
            Ok(bs) => {
                &&& forall|k: int| 0 <= k < groups@.len() ==> group_ready(view@, #[trigger] groups@[k])
                &&& bs@.len() == groups@.len()
                &&& forall|k: int| 0 <= k < bs@.len() ==> formed_button(view@, groups@[k], (old(id_gen).next_id() + k) as u64, #[trigger] bs@[k])
                &&& final(id_gen).next_id() == old(id_gen).next_id() + groups@.len()
            },
            Err(g) => exists|k: int| 0 <= k < groups@.len() && #[trigger] groups@[k] == g && !group_ready(view@, g)
                && forall|j: int| 0 <= j < k ==> group_ready(view@, #[trigger] groups@[j]),
        },
{
    let ghost first = id_gen.next_id();
    let mut bs: Vec<(u64, Idx2, ButtonAction)> = Vec::new();
    let mut k: usize = 0;
    while k < groups.len()
        invariant
            groups@ == view@.groups,
            gates@ == view@.gates,
            group_platforms@ == view@.group_platforms,
            buttons@ == view@.buttons,
            first + groups@.len() <= u64::MAX,
            k <= groups@.len(),
            id_gen.next_id() == first + k,
            bs@.len() == k,
            forall|j: int| 0 <= j < k ==> group_ready(view@, #[trigger] groups@[j]),
            forall|j: int| 0 <= j < k ==> formed_button(view@, groups@[j], (first + j) as u64, #[trigger] bs@[j]),
        decreases groups@.len() - k,
    {
        let g = groups[k];
        let pos = match find_button(buttons, g) {
            Some(pos) => pos,
            None => {
                assert(groups@[k as int] == g);
                return Err(g);
            },
        };
        let id = id_gen.next();
        let action = ButtonAction {
            unlock_cells: collect_gates(gates, g),
            platforms: collect_platforms(group_platforms, g),
        };
        bs.push((id, pos, action));
        k = k + 1;
    }
    Ok(bs)
}

/// Mounts every lasor, in placement order. On failure, returns the position
/// of the first lasor with no wall next to it.
fn form_lasors(view: Ghost<BuilderView>, g: &Grid<PendingCell>, lasors: &Vec<(Idx2, LasorKind, WarpColor)>) -> (r: Result<Vec<LasorMount>, Idx2>)
    requires
        g.wf(),
        *g == view@.pending,
        lasors@ == view@.lasors,
    ensures
        match r {
            Ok(ms) => {
                &&& forall|k: int| 0 <= k < lasors@.len() ==> #[trigger] lasor_ready(view@, k)
                &&& ms@.len() == lasors@.len()
                &&& forall|k: int| 0 <= k < ms@.len() ==> #[trigger] ms@[k] == (LasorMount {
                    pos: lasors@[k].0,
                    kind: lasors@[k].1,
                    color: lasors@[k].2,
                    card: mount_card(*g, lasors@[k].0.0 as int, lasors@[k].0.1 as int)->0,
                })
            },
            Err(p) => exists|k: int| 0 <= k < lasors@.len() && (#[trigger] lasors@[k]).0 == p && !lasor_ready(view@, k)
                && forall|j: int| 0 <= j < k ==> #[trigger] lasor_ready(view@, j),
        },
{
    let mut ms: Vec<LasorMount> = Vec::new();
    let mut k: usize = 0;
    while k < lasors.len()
        invariant
            g.wf(),
            *g == view@.pending,
            lasors@ == view@.lasors,
            k <= lasors@.len(),
            ms@.len() == k,
            forall|j: int| 0 <= j < k ==> #[trigger] lasor_ready(view@, j),
            forall|j: int| 0 <= j < k ==> #[trigger] ms@[j] == (LasorMount {
                pos: lasors@[j].0,
                kind: lasors@[j].1,
                color: lasors@[j].2,
                card: mount_card(*g, lasors@[j].0.0 as int, lasors@[j].0.1 as int)->0,
            }),
        decreases lasors@.len() - k,
    {
        let (pos, kind, color) = lasors[k];
        match form_lasor(g, pos, kind, color) {
            Some(m) => ms.push(m),
            None => {
                assert(!lasor_ready(view@, k as int));
                return Err(pos);
            },
        }
        k = k + 1;
    }
    Ok(ms)
}

/// A list of distinct `u32` values is at most 2^32 long.
proof fn lemma_distinct_u32_bound(s: Seq<u32>)
    requires
        s.no_duplicates(),
    ensures
        s.len() <= 0x1_0000_0000,
{
    let t = s.map_values(|x: u32| x as int);
    assert(t.no_duplicates()) by {
        assert forall|i: int, j: int| 0 <= i < t.len() && 0 <= j < t.len() && i != j implies t[i] != t[j] by {
            assert(s[i] != s[j]);
        }
    }
    t.unique_seq_to_set();
    let range = vstd::set_lib::set_int_range(0, 0x1_0000_0000);
    assert(t.to_set().subset_of(range));
    vstd::set_lib::lemma_int_range(0, 0x1_0000_0000);
    vstd::set_lib::lemma_len_subset(t.to_set(), range);
}

/// Why a level's placements do not make a board.
#[derive(Clone, Copy, Debug)]
pub enum BuildError {
    /// No player start was placed.
    NoPlayer,
    /// No star was placed.
    NoStar,
    /// This trigger group has gates, platforms or a name but no button.
    ButtonUnset(u32),
    /// The lasor at this position has no wall next to it.
    LasorNotMounted(Idx2),
}

/// The initial board: every entity with its hitbox id. Ids come from one
/// counter: the star takes 0, the grid cells follow in row-major order, then
/// the left and right boundary walls, then the buttons; `id_gen` hands out
/// the ids after those.
pub struct BoardLayout {
    pub id_gen: IdGen,
    pub room_dims: Idx2,
    pub player: Idx2,
    pub star_id: u64,
    pub star: Idx2,
    pub grid: Grid<Cell>,
    /// The ids of the left and right boundary walls.
    pub borders: (u64, u64),
    /// Each button's id, position and action.
    pub buttons: Vec<(u64, Idx2, ButtonAction)>,
    pub lasors: Vec<LasorMount>,
    /// Platforms present from the start, before their ids are taken.
    pub platforms: Vec<(Idx2, PlatformKind)>,
    /// Stationary warps, before their ids are taken.
    pub warps: Vec<(Idx2, WarpColor)>,
    pub respawns: Respawns,
}

/// What building from the placements `v` gives: a board exactly when the
/// player and the star are placed, every trigger group has a button and
/// every lasor has a wall next to it; otherwise the first of those checks
/// that fails, in that order. The board's cells, buttons and lasors are
/// formed from the placements, with ids from one counter.
pub open spec fn built(v: BuilderView, r: Result<BoardLayout, BuildError>) -> bool {
    &&& ((v.player is Some && v.star is Some
        && (forall|k: int| 0 <= k < v.groups.len() ==> group_ready(v, #[trigger] v.groups[k]))
        && (forall|k: int| 0 <= k < v.lasors.len() ==> #[trigger] lasor_ready(v, k)))
        ==> r is Ok)
    &&& match r {
        Err(BuildError::NoPlayer) => v.player is None,
        Err(BuildError::NoStar) => v.player is Some && v.star is None,
        Err(BuildError::ButtonUnset(g)) => {
            &&& v.player is Some
            &&& v.star is Some
            &&& exists|k: int| 0 <= k < v.groups.len() && #[trigger] v.groups[k] == g
                && !group_ready(v, g)
                && forall|j: int| 0 <= j < k ==> group_ready(v, #[trigger] v.groups[j])
        },
        Err(BuildError::LasorNotMounted(p)) => {
            &&& v.player is Some
            &&& v.star is Some
            &&& forall|k: int| 0 <= k < v.groups.len() ==> group_ready(v, #[trigger] v.groups[k])
            &&& exists|k: int| 0 <= k < v.lasors.len() && (#[trigger] v.lasors[k]).0 == p
                && !lasor_ready(v, k)
                && forall|j: int| 0 <= j < k ==> #[trigger] lasor_ready(v, j)
        },
        Ok(b) => {
            &&& v.player == Some(b.player)
            &&& v.star == Some(b.star)
            &&& b.room_dims == v.dims
            &&& b.star_id == 0
            &&& cells_formed(v.pending, b.grid, 1, b.borders.0 as int)
            &&& b.borders.1 == b.borders.0 + 1
            &&& b.buttons@.len() == v.groups.len()
            &&& forall|k: int| 0 <= k < b.buttons@.len() ==> formed_button(
                v,
                v.groups[k],
                (b.borders.1 + 1 + k) as u64,
                #[trigger] b.buttons@[k],
            )
            &&& b.lasors@.len() == v.lasors.len()
            &&& forall|k: int| 0 <= k < b.lasors@.len() ==> #[trigger] b.lasors@[k] == (LasorMount {
                pos: v.lasors[k].0,
                kind: v.lasors[k].1,
                color: v.lasors[k].2,
                card: mount_card(v.pending, v.lasors[k].0.0 as int, v.lasors[k].0.1 as int)->0,
            })
            &&& b.platforms@ == v.platforms
            &&& b.warps@ == v.warps
            &&& b.respawns == v.respawns
            &&& b.id_gen.next_id() == b.borders.1 + 1 + v.groups.len()
        },
    }
}

impl GameBoardBuilder {
    /// Checks the placements and forms the board: tiles every grid cell from
    /// its neighbors, adds the two boundary walls, bundles each trigger
    /// group into a button, and mounts every lasor on its wall. Fails when
    /// the player or the star is missing (in that order), else on the first
    /// trigger group without a button, else on the first lasor with no wall
    /// next to it.
    pub fn build(self) -> (r: Result<BoardLayout, BuildError>)
        requires
            self@.wf(),
        ensures
            built(self@, r),
    {
        let player = match self.player {
            Some(p) => p,
            None => return Err(BuildError::NoPlayer),
        };
        let star = match self.star {
            Some(p) => p,
            None => return Err(BuildError::NoStar),
        };
        proof {
            lemma_distinct_u32_bound(self.groups@);
            let w = self.room_dims.0 as int;
            let h = self.room_dims.1 as int;
            assert(w * h <= 0x4000_0000_0000_0000) by (nonlinear_arith)
                requires
                    0 <= w <= 0x7fff_ffff,
                    0 <= h <= 0x7fff_ffff,
            ;
        }
        let mut id_gen = IdGen::new();
        let star_id = id_gen.next();
        let grid = form_cells(&self.grid, &mut id_gen);
        let left = id_gen.next();
        let right = id_gen.next();
        let buttons = match form_buttons(
            Ghost(self@),
            &self.groups,
            &self.gates,
            &self.group_platforms,
            &self.buttons,
            &mut id_gen,
        ) {
            Ok(bs) => bs,
            Err(g) => return Err(BuildError::ButtonUnset(g)),
        };
        let lasors = match form_lasors(Ghost(self@), &self.grid, &self.lasors) {
            Ok(ms) => ms,
            Err(p) => return Err(BuildError::LasorNotMounted(p)),
        };
        Ok(BoardLayout {
            id_gen,
            room_dims: self.room_dims,
            player,
            star_id,
            star,
            grid,
            borders: (left, right),
            buttons,
            lasors,
            platforms: self.platforms,
            warps: self.warps,
            respawns: self.respawns,
        })
    }
}

} // verus!
