use vstd::prelude::*;
use crate::util::{Idx2, IdGen, Card, CardMask, card_offset};
use crate::cell::{Cell, CellKind};
use crate::grid::{Grid, in_room};
use crate::platform::PlatformKind;

verus! {

/// Whether a wall blocks the player on side `card`, given what stands next
/// to it on that side: another wall hides that side; a floor hides the
/// wall's left and right sides from a player standing above the wall.
pub open spec fn card_flag(neighbor: Option<Cell>, card: Card, player_above_wall: bool) -> bool {
    match neighbor {
        Some(c) => match c.kind {
            CellKind::Wall => false,
            CellKind::Floor => card is PlusY || card is MinusY || !player_above_wall,
        },
        None => true,
    }
}

/// The neighbor of `(x, y)` on side `card`.
pub open spec fn neighbor_at(grid: Grid<Cell>, x: int, y: int, card: Card) -> Option<Cell> {
    grid.at(x + card.spec_offset().0, y + card.spec_offset().1)
}

pub open spec fn spec_wall_card_mask(grid: Grid<Cell>, x: int, y: int, player_above_wall: bool) -> CardMask {
    CardMask {
        minus_x: card_flag(neighbor_at(grid, x, y, Card::MinusX), Card::MinusX, player_above_wall),
        minus_y: card_flag(neighbor_at(grid, x, y, Card::MinusY), Card::MinusY, player_above_wall),
        plus_x: card_flag(neighbor_at(grid, x, y, Card::PlusX), Card::PlusX, player_above_wall),
        plus_y: card_flag(neighbor_at(grid, x, y, Card::PlusY), Card::PlusY, player_above_wall),
    }
}

/// The sides on which the grid wall at `index` blocks the player.
pub fn wall_card_mask(grid: &Grid<Cell>, index: Idx2, player_above_wall: bool) -> (r: CardMask)
    requires
        grid.wf(),
    ensures
        r == spec_wall_card_mask(*grid, index.0 as int, index.1 as int, player_above_wall),
{
    let cards = Card::values();
    let mut card_mask = CardMask::empty();
    let mut i: usize = 0;
    while i < cards.len()
        invariant
            grid.wf(),
            cards@ == Card::spec_values(),
            i <= cards.len(),
            forall|k: int|
                0 <= k < i ==> #[trigger] card_mask.spec_get(cards@[k]) == card_flag(
                    neighbor_at(*grid, index.0 as int, index.1 as int, cards@[k]),
                    cards@[k],
                    player_above_wall,
                ),
            forall|k: int| i <= k < 4 ==> !#[trigger] card_mask.spec_get(cards@[k]),
        decreases cards.len() - i,
    {
        let card = cards[i];
        let offset = card_offset(card);
        let neighbor = grid.get(index.0 as i64 + offset.0 as i64, index.1 as i64 + offset.1 as i64);
        let flag = match neighbor {
            Some(cell) => match cell.kind() {
                CellKind::Wall => false,
                CellKind::Floor => match card {
                    Card::PlusY | Card::MinusY => true,
                    Card::PlusX | Card::MinusX => !player_above_wall,
                },
            },
            None => true,
        };
        card_mask = card_mask.set(card, flag);
        i = i + 1;
    }
    assert(card_mask.spec_get(cards@[0]) == card_mask.minus_x);
    assert(card_mask.spec_get(cards@[1]) == card_mask.minus_y);
    assert(card_mask.spec_get(cards@[2]) == card_mask.plus_x);
    assert(card_mask.spec_get(cards@[3]) == card_mask.plus_y);
    card_mask
}

/// Whether `(a, b)` is one of the positions in `cells`.
pub open spec fn lists(cells: Seq<Idx2>, a: int, b: int) -> bool {
    exists|k: int| 0 <= k < cells.len() && cells[k].0 == a && cells[k].1 == b
}

/// What stands at `(a, b)` once the cells at the positions `cells` are gone.
pub open spec fn unlocked_at(grid: Grid<Cell>, cells: Seq<Idx2>, a: int, b: int) -> Option<Cell> {
    if lists(cells, a, b) {
        None
    } else {
        grid.at(a, b)
    }
}

/// Removing a set of gate cells gives the same grid whatever the order in
/// which they are listed (or how often each is listed).
pub proof fn lemma_unlock_order_free(grid: Grid<Cell>, c1: Seq<Idx2>, c2: Seq<Idx2>)
    requires
        c1.to_set() == c2.to_set(),
    ensures
        forall|a: int, b: int| #[trigger] unlocked_at(grid, c1, a, b) == unlocked_at(grid, c2, a, b),
{
    assert forall|a: int, b: int| #[trigger] unlocked_at(grid, c1, a, b) == unlocked_at(grid, c2, a, b) by {
        if lists(c1, a, b) {
            let k = choose|k: int| 0 <= k < c1.len() && c1[k].0 == a && c1[k].1 == b;
            assert(c1.to_set().contains(c1[k]));
            assert(c2.to_set().contains(c1[k]));
            let j = choose|j: int| 0 <= j < c2.len() && c2[j] == c1[k];
            assert(c2[j].0 == a && c2[j].1 == b);
        }
        if lists(c2, a, b) {
            let k = choose|k: int| 0 <= k < c2.len() && c2[k].0 == a && c2[k].1 == b;
            assert(c2.to_set().contains(c2[k]));
            assert(c1.to_set().contains(c2[k]));
            let j = choose|j: int| 0 <= j < c1.len() && c1[j] == c2[k];
            assert(c1[j].0 == a && c1[j].1 == b);
        }
    }
}

/// Whether `id` is the id of a cell of `grid` at one of the positions `cells`.
pub open spec fn listed_cell_id(grid: Grid<Cell>, cells: Seq<Idx2>, id: u64) -> bool {
    exists|a: int, b: int|
        #![trigger grid.at(a, b)]
        lists(cells, a, b) && grid.at(a, b) is Some && grid.at(a, b)->0.id == id
}

/// Takes the cells at the positions `cells` out of the grid and returns the
/// hitbox ids of the cells that were there.
pub fn unlock_cells(grid: &mut Grid<Cell>, cells: &Vec<Idx2>) -> (removed: Vec<u64>)
    requires
        old(grid).wf(),
    ensures
        final(grid).wf(),
        final(grid).dims() == old(grid).dims(),
        forall|a: int, b: int|
            #[trigger] final(grid).at(a, b) == unlocked_at(*old(grid), cells@, a, b),
        forall|j: int|
            0 <= j < removed@.len() ==> listed_cell_id(*old(grid), cells@, #[trigger] removed@[j]),
        forall|a: int, b: int|
            lists(cells@, a, b) && #[trigger] old(grid).at(a, b) is Some ==> removed@.contains(
                old(grid).at(a, b)->0.id,
            ),
{
    let ghost g0 = *grid;
    let mut removed: Vec<u64> = Vec::new();
    let mut k: usize = 0;
    while k < cells.len()
        invariant
            g0.wf(),
            grid.wf(),
            grid.dims() == g0.dims(),
            k <= cells.len(),
            forall|a: int, b: int|
                #[trigger] grid.at(a, b) == unlocked_at(g0, cells@.take(k as int), a, b),
            forall|j: int|
                0 <= j < removed@.len() ==> listed_cell_id(g0, cells@, #[trigger] removed@[j]),
            forall|a: int, b: int|
                lists(cells@.take(k as int), a, b) && #[trigger] g0.at(a, b) is Some
                    ==> removed@.contains(g0.at(a, b)->0.id),
        decreases cells.len() - k,
    {
        let pos = cells[k];
        let ghost before = *grid;
        let ghost removed_before = removed@;
        proof {
            assert forall|a: int, b: int|
                lists(cells@.take(k + 1), a, b) == (lists(cells@.take(k as int), a, b) || (a
                    == pos.0 && b == pos.1)) by {
                if lists(cells@.take(k + 1), a, b) {
                    let i = choose|i: int|
                        #![trigger cells@.take(k + 1)[i]]
                        0 <= i < k + 1 && cells@.take(k + 1)[i].0 == a && cells@.take(k + 1)[i].1
                            == b;
                    if i < k {
                        assert(cells@.take(k as int)[i] == cells@.take(k + 1)[i]);
                    }
                }
                if lists(cells@.take(k as int), a, b) {
                    let i = choose|i: int|
                        #![trigger cells@.take(k as int)[i]]
                        0 <= i < k && cells@.take(k as int)[i].0 == a && cells@.take(k as int)[i].1
                            == b;
                    assert(cells@.take(k + 1)[i] == cells@.take(k as int)[i]);
                }
                if a == pos.0 && b == pos.1 {
                    assert(cells@.take(k + 1)[k as int] == pos);
                }
            }
        }
        match grid.get(pos.0 as i64, pos.1 as i64) {
            Some(cell) => {
                proof {
                    assert(!lists(cells@.take(k as int), pos.0 as int, pos.1 as int));
                    assert(lists(cells@, pos.0 as int, pos.1 as int)) by {
                        assert(cells@[k as int] == pos);
                    }
                }
                removed.push(cell.id);
                grid.set(pos.0, pos.1, None);
                proof {
                    assert forall|j: int|
                        0 <= j < removed@.len() implies listed_cell_id(
                            g0,
                            cells@,
                            #[trigger] removed@[j],
                        ) by {
                        if j < removed_before.len() {
                            assert(removed@[j] == removed_before[j]);
                        } else {
                            assert(g0.at(pos.0 as int, pos.1 as int) == Some(cell));
                            assert(removed@[j] == cell.id);
                        }
                    }
                    assert forall|a: int, b: int|
                        lists(cells@.take(k + 1), a, b) && #[trigger] g0.at(a, b) is Some
                            implies removed@.contains(g0.at(a, b)->0.id) by {
                        if lists(cells@.take(k as int), a, b) {
                            let j = choose|j: int|
                                #![trigger removed_before[j]]
                                0 <= j < removed_before.len() && removed_before[j] == g0.at(
                                    a,
                                    b,
                                )->0.id;
                            assert(removed@[j] == removed_before[j]);
                        } else {
                            assert(removed@[removed@.len() - 1] == cell.id);
                        }
                    }
                }
            },
            None => {
                proof {
                    assert(removed@ == removed_before);
                    assert forall|a: int, b: int|
                        lists(cells@.take(k + 1), a, b) && #[trigger] g0.at(a, b) is Some
                            implies removed@.contains(g0.at(a, b)->0.id) by {
                        if !lists(cells@.take(k as int), a, b) {
                            assert(a == pos.0 && b == pos.1);
                            assert(before.at(a, b) is None);
                        }
                    }
                }
            },
        }
        k = k + 1;
    }
    proof {
        assert(cells@.take(k as int) =~= cells@);
        assert(g0 == *old(grid));
    }
    removed
}

/// What a button does when pressed: which gates it removes and which
/// platforms it spawns.
pub struct ButtonAction {
    pub unlock_cells: Vec<Idx2>,
    pub platforms: Vec<(Idx2, PlatformKind)>,
}

/// A spawned platform placement: its copies get the ids `first_id`,
/// `first_id + 1`, ..., one for each copy of its kind.
#[derive(Clone, Copy, Debug)]
pub struct PlatformSpawn {
    pub pos: Idx2,
    pub kind: PlatformKind,
    pub first_id: u64,
}

/// The ids that the platform placements `ps` take, all copies counted.
pub open spec fn platform_ids(ps: Seq<(Idx2, PlatformKind)>) -> nat
    decreases ps.len(),
{
    if ps.len() == 0 {
        0
    } else {
        platform_ids(ps.drop_last()) + ps.last().1.spec_count() as nat
    }
}

pub proof fn lemma_platform_ids_bound(ps: Seq<(Idx2, PlatformKind)>)
    ensures
        platform_ids(ps) <= 4 * ps.len(),
    decreases ps.len(),
{
    if ps.len() > 0 {
        lemma_platform_ids_bound(ps.drop_last());
    }
}

/// Reserves the ids of one copy of the platform per phase.
pub fn spawn_platform(id_gen: &mut IdGen, pos: Idx2, kind: PlatformKind) -> (r: PlatformSpawn)
    requires
        old(id_gen).next_id() + kind.spec_count() <= u64::MAX,
    ensures
        r.pos == pos,
        r.kind == kind,
        r.first_id == old(id_gen).next_id(),
        final(id_gen).next_id() == old(id_gen).next_id() + kind.spec_count(),
{
    let count = kind.count();
    let first_id = id_gen.next();
    let mut i: u32 = 1;
    while i < count
        invariant
            1 <= i <= count,
            count == kind.spec_count(),
            first_id + count <= u64::MAX,
            id_gen.next_id() == first_id + i,
        decreases count - i,
    {
        id_gen.next();
        i = i + 1;
    }
    PlatformSpawn { pos, kind, first_id }
}

/// What pressing a button changed: the ids of the removed gates, and
/// the platforms spawned.
pub struct ButtonOutcome {
    pub removed_cells: Vec<u64>,
    pub platforms: Vec<PlatformSpawn>,
}

/// Presses a button: in one step, every gate cell of its action leaves the
/// grid and every platform of its action is spawned with fresh ids.
pub fn press_button(grid: &mut Grid<Cell>, id_gen: &mut IdGen, action: &ButtonAction) -> (r:
    ButtonOutcome)
    requires
        old(grid).wf(),
        old(id_gen).next_id() + 4 * action.platforms@.len() <= u64::MAX,
    ensures
        final(grid).wf(),
        final(grid).dims() == old(grid).dims(),
        forall|a: int, b: int|
            #[trigger] final(grid).at(a, b) == unlocked_at(*old(grid), action.unlock_cells@, a, b),
        forall|j: int|
            0 <= j < r.removed_cells@.len() ==> listed_cell_id(
                *old(grid),
                action.unlock_cells@,
                #[trigger] r.removed_cells@[j],
            ),
        forall|a: int, b: int|
            lists(action.unlock_cells@, a, b) && #[trigger] old(grid).at(a, b) is Some
                ==> r.removed_cells@.contains(old(grid).at(a, b)->0.id),
        r.platforms@.len() == action.platforms@.len(),
        forall|k: int|
            0 <= k < r.platforms@.len() ==> {
                &&& (#[trigger] r.platforms@[k]).pos == action.platforms@[k].0
                &&& r.platforms@[k].kind == action.platforms@[k].1
                &&& r.platforms@[k].first_id == old(id_gen).next_id() + platform_ids(
                    action.platforms@.take(k),
                )
            },
        final(id_gen).next_id() == old(id_gen).next_id() + platform_ids(action.platforms@),
{
    let removed_cells = unlock_cells(grid, &action.unlock_cells);
    let ghost start = id_gen.next_id();
    let mut platforms: Vec<PlatformSpawn> = Vec::new();
    let mut k: usize = 0;
    while k < action.platforms.len()
        invariant
            k <= action.platforms@.len(),
            start + 4 * action.platforms@.len() <= u64::MAX,
            id_gen.next_id() == start + platform_ids(action.platforms@.take(k as int)),
            platforms@.len() == k,
            forall|i: int|
                0 <= i < k ==> {
                    &&& (#[trigger] platforms@[i]).pos == action.platforms@[i].0
                    &&& platforms@[i].kind == action.platforms@[i].1
                    &&& platforms@[i].first_id == start + platform_ids(action.platforms@.take(i))
                },
        decreases action.platforms@.len() - k,
    {
        let (pos, kind) = action.platforms[k];
        proof {
            lemma_platform_ids_bound(action.platforms@.take(k as int));
            assert(action.platforms@.take(k + 1).drop_last() =~= action.platforms@.take(k as int));
        }
        let spawn = spawn_platform(id_gen, pos, kind);
        platforms.push(spawn);
        k = k + 1;
    }
    proof {
        assert(action.platforms@.take(k as int) =~= action.platforms@);
    }
    ButtonOutcome { removed_cells, platforms }
}

} // verus!
