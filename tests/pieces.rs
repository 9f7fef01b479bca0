use chirperjax::{
    handle_hb_event_asym, wall_tile, wall_tile_and_transform, Card, CardMask, Cell, CellKind,
    CellTransform, HbEvent, LasorKind, PieceKind, PieceProfile, PlatformKind, Response, SpriteId,
    WarpColor, card_offset,
};

fn profile(id: u64, kind: PieceKind) -> PieceProfile {
    PieceProfile::new(id, kind)
}

#[test]
fn player_interacts_with_everything_but_players() {
    let player = profile(1, PieceKind::Player);
    for kind in [
        PieceKind::Wall,
        PieceKind::Floor,
        PieceKind::Platform,
        PieceKind::Button,
        PieceKind::Warp,
        PieceKind::Star,
    ] {
        let other = profile(2, kind);
        assert!(player.can_interact(&other));
        assert!(other.can_interact(&player));
    }
    assert!(!player.can_interact(&profile(2, PieceKind::Player)));
}

#[test]
fn warp_hits_grid_walls_but_not_border_walls() {
    let warp = profile(1, PieceKind::Warp);
    let grid_wall = PieceProfile::cell(2, (3, 4), CellKind::Wall);
    let border = profile(3, PieceKind::Wall);
    assert!(warp.can_interact(&grid_wall));
    assert!(grid_wall.can_interact(&warp));
    assert!(!warp.can_interact(&border));
    assert!(warp.can_interact(&PieceProfile::cell(4, (0, 0), CellKind::Floor)));
    assert!(warp.can_interact(&profile(5, PieceKind::Platform)));
    assert!(!warp.can_interact(&profile(6, PieceKind::Button)));
    assert!(!warp.can_interact(&profile(7, PieceKind::Star)));
    assert!(!warp.can_interact(&profile(8, PieceKind::Warp)));
}

#[test]
fn static_pieces_ignore_each_other() {
    let kinds = [
        PieceKind::Wall,
        PieceKind::Floor,
        PieceKind::Platform,
        PieceKind::Button,
        PieceKind::Star,
    ];
    for a in kinds {
        for b in kinds {
            assert!(!profile(1, a).can_interact(&profile(2, b)));
        }
    }
}

#[test]
fn cell_profile_keeps_index_and_kind() {
    let p = PieceProfile::cell(9, (2, 7), CellKind::Floor);
    assert_eq!(p.id(), 9);
    assert_eq!(p.kind, PieceKind::Floor);
    assert_eq!(p.index, Some((2, 7)));
    assert_eq!(PieceKind::from(CellKind::Wall), PieceKind::Wall);
}

#[test]
fn responses_to_contact_events() {
    let player = profile(1, PieceKind::Player);
    let button = profile(2, PieceKind::Button);
    let warp = profile(3, PieceKind::Warp);
    let star = profile(4, PieceKind::Star);
    let floor = profile(5, PieceKind::Floor);
    let wall = profile(6, PieceKind::Wall);
    assert_eq!(handle_hb_event_asym(HbEvent::Collide, player, button), Response::PressButton(2));
    assert_eq!(handle_hb_event_asym(HbEvent::Separate, player, button), Response::Nothing);
    assert_eq!(handle_hb_event_asym(HbEvent::Collide, player, warp), Response::Warp(3));
    assert_eq!(handle_hb_event_asym(HbEvent::Collide, player, star), Response::ObtainStar);
    assert_eq!(handle_hb_event_asym(HbEvent::Separate, player, star), Response::Nothing);
    assert_eq!(handle_hb_event_asym(HbEvent::Separate, player, floor), Response::UpdatePlayerBarriers);
    assert_eq!(handle_hb_event_asym(HbEvent::Collide, player, wall), Response::UpdatePlayerBarriers);
    assert_eq!(handle_hb_event_asym(HbEvent::Collide, button, player), Response::Nothing);
    assert_eq!(
        handle_hb_event_asym(HbEvent::Collide, warp, wall),
        Response::WarpHitsWall { warp: 3, wall: 6, mask: CardMask::full() }
    );
    assert_eq!(
        handle_hb_event_asym(HbEvent::Collide, warp, floor),
        Response::WarpHitsWall { warp: 3, wall: 5, mask: CardMask::only(Card::PlusY) }
    );
    assert_eq!(handle_hb_event_asym(HbEvent::Separate, warp, floor), Response::Nothing);
    assert_eq!(handle_hb_event_asym(HbEvent::Collide, warp, player), Response::Nothing);
}

#[test]
fn card_helpers() {
    assert_eq!(Card::values(), vec![Card::MinusX, Card::MinusY, Card::PlusX, Card::PlusY]);
    assert_eq!(Card::PlusX.flip(), Card::MinusX);
    assert_eq!(Card::MinusY.flip(), Card::PlusY);
    assert_eq!(card_offset(Card::PlusX), (1, 0));
    assert_eq!(card_offset(Card::MinusY), (0, -1));
    let m = CardMask::only(Card::PlusY);
    assert!(m.get(Card::PlusY));
    assert!(!m.get(Card::MinusY));
    assert!(!CardMask::empty().get(Card::PlusX));
    assert!(CardMask::full().get(Card::MinusX));
}

#[test]
fn isolated_wall_gets_fallback_tile() {
    assert_eq!(wall_tile_and_transform([false; 8]), (SpriteId::TileR1C1, CellTransform::Id));
    assert_eq!(wall_tile([false; 8], 0), None);
}

#[test]
fn surrounded_wall_is_solid() {
    assert_eq!(wall_tile_and_transform([true; 8]), (SpriteId::TileR1C1, CellTransform::Id));
}

#[test]
fn wall_with_open_top_is_edge() {
    // top-left, top and top-right are open
    let n = [false, false, false, true, true, true, true, true];
    assert_eq!(wall_tile(n, 0), Some(SpriteId::TileR1C0));
    assert_eq!(wall_tile_and_transform(n), (SpriteId::TileR1C0, CellTransform::Id));
}

#[test]
fn wall_with_open_right_turns_a_quarter() {
    // the right column is open: the top-edge shape after one quarter turn
    let n = [true, true, false, false, false, true, true, true];
    assert_eq!(wall_tile(n, 0), None);
    assert_eq!(wall_tile_and_transform(n), (SpriteId::TileR1C0, CellTransform::Turn90));
}

#[test]
fn outer_and_inner_corners() {
    let outer = [false, false, false, true, true, true, false, false];
    assert_eq!(wall_tile_and_transform(outer), (SpriteId::TileR0C2, CellTransform::Id));
    let inner = [true, true, true, true, false, true, true, true];
    assert_eq!(wall_tile_and_transform(inner), (SpriteId::TileR0C3, CellTransform::Id));
    let inner_turned = [true, true, true, true, true, true, false, true];
    assert_eq!(wall_tile_and_transform(inner_turned), (SpriteId::TileR0C3, CellTransform::Turn90));
}

#[test]
fn floor_tiles_from_horizontal_neighbors() {
    let left_end = Cell::floor(1, [false, true]);
    assert_eq!((left_end.tile, left_end.transform), (SpriteId::TileR0C0, CellTransform::Id));
    let right_end = Cell::floor(2, [true, false]);
    assert_eq!((right_end.tile, right_end.transform), (SpriteId::TileR0C0, CellTransform::Mirror));
    let middle = Cell::floor(3, [true, true]);
    assert_eq!((middle.tile, middle.transform), (SpriteId::TileR0C1, CellTransform::Id));
    let alone = Cell::floor(4, [false, false]);
    assert_eq!((alone.tile, alone.transform), (SpriteId::TileR0C1, CellTransform::Id));
    assert_eq!(alone.kind(), CellKind::Floor);
    assert_eq!(alone.id(), 4);
}

#[test]
fn gate_and_spawn_cells() {
    let gate = Cell::gate(5);
    assert_eq!((gate.kind, gate.tile), (CellKind::Wall, SpriteId::TileR1C3));
    let pad = Cell::spawn(6, WarpColor::Blue, true);
    assert_eq!((pad.kind, pad.tile, pad.transform), (CellKind::Wall, SpriteId::TileR2C1, CellTransform::Mirror));
    let pad = Cell::spawn(7, WarpColor::Pink, false);
    assert_eq!((pad.tile, pad.transform), (SpriteId::TileR2C2, CellTransform::Id));
    let wall = Cell::wall(8, [true; 8]);
    assert_eq!((wall.id, wall.kind), (8, CellKind::Wall));
}

#[test]
fn warp_textures_and_lasor_cones() {
    assert_eq!(WarpColor::Green.tex(), SpriteId::GreenWarp);
    assert_eq!(WarpColor::Blue.tex(), SpriteId::BlueWarp);
    assert_eq!(WarpColor::Pink.tex(), SpriteId::PinkWarp);
    assert_eq!(LasorKind::Still.max_angle_degrees(), 0);
    assert_eq!(LasorKind::Aiming.max_angle_degrees(), 30);
}

#[test]
fn circular_platforms_have_four_copies_a_quarter_turn_apart() {
    for kind in [PlatformKind::Circle, PlatformKind::ReverseCircle] {
        assert_eq!(kind.count(), 4);
        let phases: Vec<u32> = (0..4).map(|i| kind.phase_degrees(i)).collect();
        assert_eq!(phases, vec![0, 90, 180, 270]);
    }
    for kind in [PlatformKind::UpDown, PlatformKind::DownUp, PlatformKind::RightLeft, PlatformKind::LeftRight] {
        assert_eq!(kind.count(), 1);
        assert_eq!(kind.phase_degrees(0), 0);
    }
}

#[test]
fn platform_radii() {
    assert_eq!(PlatformKind::Circle.radii(), (32, 32));
    assert_eq!(PlatformKind::ReverseCircle.radii(), (32, -32));
    assert_eq!(PlatformKind::UpDown.radii(), (0, 40));
    assert_eq!(PlatformKind::DownUp.radii(), (0, -40));
    assert_eq!(PlatformKind::RightLeft.radii(), (40, 0));
    assert_eq!(PlatformKind::LeftRight.radii(), (-40, 0));
}
