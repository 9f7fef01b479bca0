use chirperjax::{
    digit, index_to_color, load, load_builder, placement, press_button, wall_card_mask, BuildError, Card,
    CardMask, CellKind, CellTransform, GameBoardBuilder, Grid, IdGen, LasorKind, LevelFile,
    LoadError, Placement, PlatformKind, SpriteId, WarpColor, ButtonAction, Cell, spawn_platform,
    unlock_cells,
};

fn blank_index(level: &str) -> String {
    level
        .lines()
        .map(|l| " ".repeat(l.chars().count()))
        .collect::<Vec<_>>()
        .join("\n")
}

const ROOM: &str = "-----|\n-P @-|\n-----|\n";

#[test]
fn level_file_reads_rows_bottom_up() {
    let f = LevelFile::new("ab|\r\n\ncd|\n").unwrap();
    assert_eq!(f.room_dims(), (2, 2));
    assert_eq!(f.get((0, 0)), Some('c'));
    assert_eq!(f.get((1, 1)), Some('b'));
    assert_eq!(f.get((2, 1)), Some('|'));
    assert_eq!(f.get((3, 1)), None);
    assert_eq!(f.get((0, 2)), None);
    assert_eq!(f.get((-1, 0)), None);
}

#[test]
fn level_file_without_lines_is_refused() {
    assert!(LevelFile::new("").is_none());
    assert!(LevelFile::new("\n\r\n\n").is_none());
}

#[test]
fn digits_and_colors() {
    assert_eq!(digit('0'), Some(0));
    assert_eq!(digit('7'), Some(7));
    assert_eq!(digit('a'), None);
    assert_eq!(digit(' '), None);
    assert_eq!(index_to_color(0), Some(WarpColor::Green));
    assert_eq!(index_to_color(1), Some(WarpColor::Blue));
    assert_eq!(index_to_color(2), Some(WarpColor::Pink));
    assert_eq!(index_to_color(3), None);
}

#[test]
fn symbol_table() {
    assert_eq!(placement('P', None), Some(Placement::Player));
    assert_eq!(placement('P', Some(1)), None);
    assert_eq!(placement('I', Some(4)), Some(Placement::Gate(4)));
    assert_eq!(placement('I', None), None);
    assert_eq!(placement('c', Some(2)), Some(Placement::Platform(PlatformKind::ReverseCircle, Some(2))));
    assert_eq!(placement('<', None), Some(Placement::Platform(PlatformKind::LeftRight, None)));
    assert_eq!(placement('H', Some(2)), Some(Placement::Lasor(LasorKind::Aiming, WarpColor::Pink)));
    assert_eq!(placement('L', Some(5)), None);
    assert_eq!(placement('w', Some(1)), Some(Placement::Respawn(WarpColor::Blue)));
    assert_eq!(placement('W', Some(0)), Some(Placement::Warp(WarpColor::Green)));
    assert_eq!(placement(' ', None), Some(Placement::Nothing));
    assert_eq!(placement('x', None), None);
}

#[test]
fn load_small_room() {
    let layout = load(ROOM, &blank_index(ROOM)).unwrap();
    assert_eq!(layout.room_dims, (5, 3));
    assert_eq!(layout.player, (1, 1));
    assert_eq!(layout.star, (3, 1));
    assert_eq!(layout.star_id, 0);
    // twelve wall cells, ids 1 to 12 in row-major order from the bottom row
    assert_eq!(layout.grid.get(0, 0).unwrap().id, 1);
    assert_eq!(layout.grid.get(4, 0).unwrap().id, 5);
    assert_eq!(layout.grid.get(0, 1).unwrap().id, 6);
    assert_eq!(layout.grid.get(4, 1).unwrap().id, 7);
    assert_eq!(layout.grid.get(4, 2).unwrap().id, 12);
    assert!(layout.grid.get(1, 1).is_none());
    assert!(layout.grid.get(5, 1).is_none());
    assert_eq!(layout.borders, (13, 14));
    assert_eq!(layout.id_gen.peek_next(), 15);
    let corner = layout.grid.get(0, 0).unwrap();
    assert_eq!((corner.kind, corner.tile, corner.transform), (CellKind::Wall, SpriteId::TileR0C3, CellTransform::Turn270));
    let middle = layout.grid.get(2, 0).unwrap();
    assert_eq!((middle.tile, middle.transform), (SpriteId::TileR1C0, CellTransform::Id));
}

#[test]
fn load_reports_unknown_symbol() {
    let level = "-----|\n-P x-|\n-----|\n";
    assert!(matches!(load(level, &blank_index(level)), Err(LoadError::UnknownSymbol((3, 1)))));
}

#[test]
fn load_reports_missing_player_and_star() {
    let level = "-----|\n-  @-|\n-----|\n";
    assert!(matches!(load(level, &blank_index(level)), Err(LoadError::Build(BuildError::NoPlayer))));
    let level = "-----|\n-P  -|\n-----|\n";
    assert!(matches!(load(level, &blank_index(level)), Err(LoadError::Build(BuildError::NoStar))));
}

#[test]
fn load_reports_group_without_button() {
    let level = "------|\n-P I@-|\n------|\n";
    let index = "      |\n   1  |\n      |\n";
    assert!(matches!(load(level, index), Err(LoadError::Build(BuildError::ButtonUnset(1)))));
}

#[test]
fn load_reports_respawn_at_edge() {
    let level = "-----|\n-P @w|\n-----|\n";
    let index = "     |\n    0|\n     |\n";
    assert!(matches!(load(level, index), Err(LoadError::RespawnAtEdge((4, 1)))));
}

#[test]
fn load_reports_empty_files() {
    assert!(matches!(load("", ""), Err(LoadError::NoRoom)));
    assert!(matches!(load(ROOM, ""), Err(LoadError::NoRoom)));
}

#[test]
fn lasor_faces_away_from_its_wall() {
    let mut b = GameBoardBuilder::new((5, 3));
    b.add_player((1, 1));
    b.add_star((3, 1));
    b.add_wall((2, 0));
    b.add_lasor((2, 1), LasorKind::Aiming, WarpColor::Pink);
    let layout = b.build().ok().unwrap();
    assert_eq!(layout.lasors.len(), 1);
    assert_eq!(layout.lasors[0].card, Card::PlusY);
    assert_eq!(layout.lasors[0].pos, (2, 1));
    assert_eq!(layout.lasors[0].kind, LasorKind::Aiming);
    assert_eq!(layout.lasors[0].color, WarpColor::Pink);
}

#[test]
fn lasor_at_room_edge_mounts_on_the_outside() {
    let mut b = GameBoardBuilder::new((5, 3));
    b.add_player((1, 1));
    b.add_star((3, 1));
    b.add_lasor((0, 1), LasorKind::Still, WarpColor::Green);
    let layout = b.build().ok().unwrap();
    assert_eq!(layout.lasors[0].card, Card::PlusX);
}

#[test]
fn lasor_without_wall_fails() {
    let mut b = GameBoardBuilder::new((5, 3));
    b.add_player((1, 1));
    b.add_star((3, 1));
    b.add_floor((2, 0));
    b.add_lasor((2, 1), LasorKind::Still, WarpColor::Green);
    assert!(matches!(b.build(), Err(BuildError::LasorNotMounted((2, 1)))));
}

fn gated_room() -> GameBoardBuilder {
    let mut b = GameBoardBuilder::new((6, 3));
    b.add_player((1, 1));
    b.add_star((4, 1));
    for x in 0..6 {
        b.add_floor((x, 0));
    }
    b.add_gate((3, 1), 0);
    b.add_gate((3, 2), 0);
    b.add_button((2, 1), 0);
    b.add_platform((1, 2), PlatformKind::Circle, Some(0));
    b.add_platform((5, 2), PlatformKind::UpDown, Some(0));
    b.add_platform((2, 2), PlatformKind::LeftRight, None);
    b.add_respawn((4, 2), WarpColor::Blue);
    b.add_warp((0, 2), WarpColor::Blue);
    b
}

#[test]
fn build_bundles_trigger_groups() {
    let layout = gated_room().build().ok().unwrap();
    assert_eq!(layout.buttons.len(), 1);
    let (id, pos, action) = &layout.buttons[0];
    // star 0, 6 floors, 2 gates and 2 pad halves: 10 cells, 2 borders
    assert_eq!(layout.borders, (11, 12));
    assert_eq!(*id, 13);
    assert_eq!(*pos, (2, 1));
    assert_eq!(action.unlock_cells, vec![(3, 1), (3, 2)]);
    assert_eq!(action.platforms, vec![((1, 2), PlatformKind::Circle), ((5, 2), PlatformKind::UpDown)]);
    assert_eq!(layout.platforms, vec![((2, 2), PlatformKind::LeftRight)]);
    assert_eq!(layout.warps, vec![((0, 2), WarpColor::Blue)]);
    assert_eq!(layout.respawns.get(WarpColor::Blue), Some((4, 2)));
    assert_eq!(layout.respawns.get(WarpColor::Green), None);
    let pad = layout.grid.get(5, 2).unwrap();
    assert_eq!((pad.tile, pad.transform), (SpriteId::TileR2C1, CellTransform::Mirror));
    let gate = layout.grid.get(3, 1).unwrap();
    assert_eq!(gate.tile, SpriteId::TileR1C3);
    let floor = layout.grid.get(0, 0).unwrap();
    assert_eq!((floor.kind, floor.tile, floor.transform), (CellKind::Floor, SpriteId::TileR0C1, CellTransform::Id));
}

#[test]
fn pressing_a_button_unlocks_gates_and_spawns_platforms() {
    let layout = gated_room().build().ok().unwrap();
    let mut grid = layout.grid;
    let mut ids = layout.id_gen;
    let gate_ids = (grid.get(3, 1).unwrap().id, grid.get(3, 2).unwrap().id);
    let first = ids.peek_next();
    let outcome = press_button(&mut grid, &mut ids, &layout.buttons[0].2);
    assert!(grid.get(3, 1).is_none());
    assert!(grid.get(3, 2).is_none());
    assert!(grid.get(2, 0).is_some());
    assert_eq!(outcome.removed_cells, vec![gate_ids.0, gate_ids.1]);
    assert_eq!(outcome.platforms.len(), 2);
    assert_eq!(outcome.platforms[0].first_id, first);
    assert_eq!(outcome.platforms[0].kind, PlatformKind::Circle);
    assert_eq!(outcome.platforms[1].first_id, first + 4);
    assert_eq!(outcome.platforms[1].pos, (5, 2));
    assert_eq!(ids.peek_next(), first + 5);
}

#[test]
fn unlock_order_does_not_matter() {
    let layout = gated_room().build().ok().unwrap();
    let mut a = layout.grid;
    let layout = gated_room().build().ok().unwrap();
    let mut b = layout.grid;
    unlock_cells(&mut a, &vec![(3, 1), (3, 2)]);
    unlock_cells(&mut b, &vec![(3, 2), (3, 1), (3, 2)]);
    for y in 0..3 {
        for x in 0..6 {
            assert_eq!(a.get(x, y).map(|c| c.id), b.get(x, y).map(|c| c.id));
        }
    }
}

#[test]
fn spawned_platform_reserves_one_id_per_copy() {
    let mut ids = IdGen::new();
    let s = spawn_platform(&mut ids, (1, 1), PlatformKind::ReverseCircle);
    assert_eq!(s.first_id, 0);
    assert_eq!(ids.next(), 4);
}

fn cell(id: u64, kind: CellKind) -> Option<Cell> {
    Some(Cell { id, kind, tile: SpriteId::TileR1C1, transform: CellTransform::Id })
}

#[test]
fn wall_sides_hidden_by_neighbors() {
    let mut g: Grid<Cell> = Grid::new((3, 3));
    g.set(1, 1, cell(0, CellKind::Wall));
    g.set(0, 1, cell(1, CellKind::Wall));
    g.set(2, 1, cell(2, CellKind::Floor));
    let m = wall_card_mask(&g, (1, 1), false);
    assert_eq!(m, CardMask { minus_x: false, minus_y: true, plus_x: true, plus_y: true });
    let m = wall_card_mask(&g, (1, 1), true);
    assert_eq!(m, CardMask { minus_x: false, minus_y: true, plus_x: false, plus_y: true });
    g.set(1, 2, cell(3, CellKind::Floor));
    let m = wall_card_mask(&g, (1, 1), true);
    assert_eq!(m, CardMask { minus_x: false, minus_y: true, plus_x: false, plus_y: true });
    g.set(1, 0, cell(4, CellKind::Wall));
    let m = wall_card_mask(&g, (1, 1), false);
    assert_eq!(m, CardMask { minus_x: false, minus_y: false, plus_x: true, plus_y: true });
}

#[test]
fn grid_edges_are_open() {
    let g: Grid<Cell> = Grid::new((1, 1));
    assert_eq!(wall_card_mask(&g, (0, 0), false), CardMask::full());
}

#[test]
fn load_builder_hands_squares_to_builder() {
    let level = "-------|\n-P w @-|\n---I---|\n";
    let index = "       |\n   2   |\n   4   |\n";
    let b = load_builder(level, index).ok().unwrap();
    let layout = b.build();
    // group 4, named by a gate, has no button
    assert!(matches!(layout, Err(BuildError::ButtonUnset(4))));
    let level = "-------|\n-P w @-|\n-------|\n";
    let index = "       |\n   2   |\n       |\n";
    let layout = load(level, index).ok().unwrap();
    assert_eq!(layout.respawns.get(WarpColor::Pink), Some((3, 1)));
    let left = layout.grid.get(3, 1).unwrap();
    let right = layout.grid.get(4, 1).unwrap();
    assert_eq!((left.tile, left.transform), (SpriteId::TileR2C2, CellTransform::Id));
    assert_eq!((right.tile, right.transform), (SpriteId::TileR2C2, CellTransform::Mirror));
}
