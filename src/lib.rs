//! Game logic of a small 2D platformer: the periodic step scheduler, the
//! interaction rules between pieces, tile classification of the level grid,
//! the player's lifecycle and jump state, button presses, the level builder
//! and the level-file reader.
//!
//! Continuous motion and collision prediction are done by the `collider`
//! crate in the application; everything here works on integer grid
//! positions, hitbox ids and tick counts.

mod board;
mod builder;
mod cell;
mod game_input;
mod grid;
mod interaction;
mod level_loader;
mod piece_profile;
mod platform;
mod player;
mod player_enum;
mod sprite;
mod step_queue;
mod util;
mod warp;

pub use board::{
    card_flag, neighbor_at, spec_wall_card_mask, wall_card_mask, lists, unlocked_at,
    lemma_unlock_order_free, unlock_cells, listed_cell_id, ButtonAction, PlatformSpawn, platform_ids,
    lemma_platform_ids_bound, spawn_platform, ButtonOutcome, press_button,
};
pub use builder::{
    PendingCell, Respawns, LasorMount, GameBoardBuilder, BuilderView, BuildError, BoardLayout,
    pending_neighbor, joins_wall, wall_neighbors, formed_cell, cells_formed, gates_of, platforms_of,
    button_pos, wall_behind, mount_card, group_ready, lasor_ready, formed_button, built,
};
pub use cell::{
    Cell, CellKind, CellTransform, wall_tile, wall_tile_and_transform, spec_wall_tile,
    spec_wall_tile_and_transform, spec_floor_tile, spec_spawn_tile, wall_fallback, turned,
};
pub use game_input::{HorizDir, Key, InputEvent, GameInput, without, last_held};
pub use grid::{
    Grid, in_room, index_of, column_of, row_of, lemma_index_in_range, lemma_slot_position,
    lemma_index_distinct,
};
pub use interaction::{HbEvent, Response, handle_hb_event_asym, spec_response};
pub use level_loader::{
    LevelFile, LoadError, Placement, load, digit, index_to_color, placement, spec_digit,
    spec_index_to_color, spec_placement, scan_rows, end_row, level_rows, lemma_rows_nonempty,
    char_at, has_room, room_of, square, square_ok, scanned_before, placements_before,
    all_placements, player_in, star_in, warps_in, lasors_in, free_platforms_in, grouped_platforms_in,
    gates_in, buttons_in, group_of, groups_in, respawn_in, grid_part, right_half, pending_text,
    pending_before, loaded_view, all_squares_ok, read_outcome, load_builder,
};
pub use piece_profile::{PieceKind, PieceProfile, interacts_asym};
pub use platform::{PlatformKind, lemma_circular_copies_quarter_turns};
pub use player::{GroundChange, JumpState, spec_ground_change};
pub use player_enum::{
    PlayerPhase, PlayerTrigger, next_phase, spec_next_phase, has_hitbox, phase_history,
    lifecycle_step, is_lifecycle, lemma_phases_follow_lifecycle,
};
pub use sprite::SpriteId;
pub use step_queue::{Step, StepQueue, TICKS_PER_SECOND, MAX_PERIOD};
pub use util::{IdGen, Idx2, Card, CardMask, card_offset};
pub use warp::{WarpColor, LasorKind};
