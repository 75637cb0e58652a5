//! The per-frame reconciliation pass: commit of the staged screen
//! transition, movement reconciliation with collision checks, and the
//! wall-clock-gated economy tick.

use vstd::prelude::*;

use crate::game::{
    default_embark_view, idle_ticked, EmbarkState, EmbarkStateView, GameScreen, GameState,
    GameStateView, Location,
};
use crate::tilemap::{generated_map, tile_index, Tile, TileMap, TileMapView};

verus! {

/// The state after the staged transition (if any) is committed. Committing
/// always clears both staged fields.
///
/// An `Idle` request resets the session to its default and returns to base.
/// An `Embark` request commits only when the staged location is an embark
/// site with generable dimensions: the session is regenerated from its
/// parameters, with the player at the map's center cell. A staged `Embark`
/// request without such a location is rejected: the request is discarded and
/// the rest of the state is unchanged.
pub open spec fn transition_committed(s: GameStateView) -> GameStateView {
    match s.next_game_mode {
        None => s,
        Some(GameScreen::Idle) => GameStateView {
            next_game_mode: None,
            next_location: None,
            cur_location: Location::AtBase,
            embark_state: default_embark_view(),
            game_mode: GameScreen::Idle,
            ..s
        },
        Some(GameScreen::Embark) => match s.next_location {
            Some(Location::Embark(p)) => {
                if p.wf() {
                    GameStateView {
                        next_game_mode: None,
                        next_location: None,
                        cur_location: Location::Embark(p),
                        game_mode: GameScreen::Embark,
                        embark_state: EmbarkStateView {
                            player_x: (p.dims.0 / 2) as u32,
                            player_y: (p.dims.1 / 2) as u32,
                            del_x: None,
                            del_y: None,
                            tilemap: Some(generated_map(p)),
                        },
                        ..s
                    }
                } else {
                    GameStateView { next_game_mode: None, next_location: None, ..s }
                }
            },
            _ => GameStateView { next_game_mode: None, next_location: None, ..s },
        },
    }
}

/// The staged movement delta on one axis: a pending delta counts in full,
/// no pending delta counts as zero.
pub open spec fn pending_delta(d: Option<i32>) -> int {
    match d {
        Some(v) => v as int,
        None => 0,
    }
}

/// The player's x coordinate after one axis evaluation: the candidate
/// `px + d` is committed only when it lies on the map and the target tile is
/// `Empty`; a `Wall` target or an out-of-bounds index leaves `px` unchanged.
pub open spec fn moved_x(m: TileMapView, px: int, py: int, d: int) -> int {
    let cand = px + d;
    let idx = tile_index(m.width as int, cand, py);
    if 0 <= cand < m.width && 0 <= py < m.height && 0 <= idx < m.tiles.len() && m.tiles[idx]
        is Empty {
        cand
    } else {
        px
    }
}

/// The player's y coordinate after one axis evaluation, as [`moved_x`].
pub open spec fn moved_y(m: TileMapView, px: int, py: int, d: int) -> int {
    let cand = py + d;
    let idx = tile_index(m.width as int, px, cand);
    if 0 <= px < m.width && 0 <= cand < m.height && 0 <= idx < m.tiles.len() && m.tiles[idx]
        is Empty {
        cand
    } else {
        py
    }
}

/// The state after movement reconciliation. While embarked with a map, both
/// axes are evaluated independently against the pre-move position; pending
/// deltas are consumed in every mode, whatever the outcome.
pub open spec fn movement_applied(s: GameStateView) -> GameStateView {
    if s.game_mode is Embark {
        match s.embark_state.tilemap {
            Some(m) => GameStateView {
                embark_state: EmbarkStateView {
                    player_x: moved_x(
                        m,
                        s.embark_state.player_x as int,
                        s.embark_state.player_y as int,
                        pending_delta(s.embark_state.del_x),
                    ) as u32,
                    player_y: moved_y(
                        m,
                        s.embark_state.player_x as int,
                        s.embark_state.player_y as int,
                        pending_delta(s.embark_state.del_y),
                    ) as u32,
                    del_x: None,
                    del_y: None,
                    tilemap: s.embark_state.tilemap,
                },
                ..s
            },
            None => GameStateView {
                embark_state: EmbarkStateView { del_x: None, del_y: None, ..s.embark_state },
                ..s
            },
        }
    } else {
        GameStateView {
            embark_state: EmbarkStateView { del_x: None, del_y: None, ..s.embark_state },
            ..s
        }
    }
}

/// The state after the tick check: when at least one full interval has
/// elapsed since the last tick, exactly one economy step runs and the tick
/// clock restarts at `now` (no catch-up for longer gaps); otherwise nothing
/// changes.
pub open spec fn tick_applied(s: GameStateView, now: u64) -> GameStateView {
    if now >= s.last_tick && now - s.last_tick >= s.tick_duration {
        GameStateView { last_tick: now, ..idle_ticked(s) }
    } else {
        s
    }
}

/// The state after one whole frame: transition commit, then movement
/// reconciliation, then the tick check.
pub open spec fn frame_applied(s: GameStateView, now: u64) -> GameStateView {
    tick_applied(movement_applied(transition_committed(s)), now)
}

impl GameState {
    /// Commits the staged transition, if any; see [`transition_committed`].
    fn commit_transition(&mut self)
        ensures
            final(self)@ == transition_committed(old(self)@),
    {
        match self.next_game_mode {
            None => {},
            Some(GameScreen::Idle) => {
                self.next_game_mode = None;
                self.next_location = None;
                self.cur_location = Location::AtBase;
                self.embark_state = EmbarkState::default();
                self.game_mode = GameScreen::Idle;
            },
            Some(GameScreen::Embark) => {
                let staged = self.next_location;
                self.next_game_mode = None;
                self.next_location = None;
                match staged {
                    Some(Location::Embark(params)) => {
                        let w = params.dims.0;
                        let h = params.dims.1;
                        proof {
                            assert((w as int) * (h as int) <= (u32::MAX as int) * (u32::MAX
                                as int)) by (nonlinear_arith)
                                requires
                                    0 <= w <= u32::MAX,
                                    0 <= h <= u32::MAX,
                                ;
                        }
                        if w >= 2 && h >= 2 && (w as u64) * (h as u64) <= (u32::MAX as u64) {
                            self.cur_location = Location::Embark(params);
                            let map = TileMap::generate(params);
                            self.embark_state = EmbarkState {
                                player_x: w / 2,
                                player_y: h / 2,
                                del_x: None,
                                del_y: None,
                                tilemap: Some(map),
                            };
                            self.game_mode = GameScreen::Embark;
                        }
                    },
                    _ => {},
                }
            },
        }
        proof {
            assert(self@ =~~= transition_committed(old(self)@));
        }
    }
}

/// One axis step on the x axis; total, with every bounds check done at run
/// time, and proved equal to [`moved_x`].
fn step_x(m: &TileMap, px: u32, py: u32, d: i32) -> (r: u32)
    ensures
        r as int == moved_x(m@, px as int, py as int, d as int),
{
    let cand_i: i64 = px as i64 + d as i64;
    if 0 <= cand_i && cand_i < m.width as i64 && py < m.height {
        let cand = cand_i as u32;
        proof {
            assert((py as int) * (m@.width as int) <= (u32::MAX as int) * (u32::MAX as int))
                by (nonlinear_arith)
                requires
                    0 <= py <= u32::MAX,
                    0 <= m@.width <= u32::MAX,
                ;
        }
        let idx64: u64 = (py as u64) * (m.width as u64) + (cand as u64);
        if idx64 < m.tiles.len() as u64 {
            let idx: usize = idx64 as usize;
            if let Tile::Empty = m.tiles[idx] {
                return cand;
            }
        }
    }
    px
}

/// One axis step on the y axis; total, proved equal to [`moved_y`].
fn step_y(m: &TileMap, px: u32, py: u32, d: i32) -> (r: u32)
    ensures
        r as int == moved_y(m@, px as int, py as int, d as int),
{
    let cand_i: i64 = py as i64 + d as i64;
    if 0 <= cand_i && cand_i < m.height as i64 && px < m.width {
        let cand = cand_i as u32;
        proof {
            assert((cand as int) * (m@.width as int) <= (u32::MAX as int) * (u32::MAX as int))
                by (nonlinear_arith)
                requires
                    0 <= cand <= u32::MAX,
                    0 <= m@.width <= u32::MAX,
                ;
        }
        let idx64: u64 = (cand as u64) * (m.width as u64) + (px as u64);
        if idx64 < m.tiles.len() as u64 {
            let idx: usize = idx64 as usize;
            if let Tile::Empty = m.tiles[idx] {
                return cand;
            }
        }
    }
    py
}

impl GameState {
    /// Applies and consumes the pending movement deltas; see
    /// [`movement_applied`].
    fn reconcile_movement(&mut self)
        ensures
            final(self)@ == movement_applied(old(self)@),
    {
        let del_x = self.embark_state.del_x;
        let del_y = self.embark_state.del_y;
        self.embark_state.del_x = None;
        self.embark_state.del_y = None;
        if let GameScreen::Embark = self.game_mode {
            if self.embark_state.tilemap.is_some() {
                let px = self.embark_state.player_x;
                let py = self.embark_state.player_y;
                let nx: u32;
                let ny: u32;
                {
                    let m = self.embark_state.tilemap.as_ref().unwrap();
                    nx = match del_x {
                        Some(d) => step_x(m, px, py, d),
                        None => px,
                    };
                    ny = match del_y {
                        Some(d) => step_y(m, px, py, d),
                        None => py,
                    };
                }
                self.embark_state.player_x = nx;
                self.embark_state.player_y = ny;
            }
        }
        proof {
            assert(self@ =~~= movement_applied(old(self)@));
        }
    }

    /// Runs the tick check against the driver's clock reading `now` (same
    /// unit as `tick_duration`); see [`tick_applied`].
    fn run_tick(&mut self, now: u64)
        ensures
            final(self)@ == tick_applied(old(self)@, now),
    {
        if now >= self.last_tick && now - self.last_tick >= self.tick_duration {
            self.idle_tick();
            self.last_tick = now;
        }
    }

    /// One whole frame of reconciliation, driven by the clock reading `now`:
    /// commits the staged transition, reconciles movement, and runs at most
    /// one economy tick. Preserves the global invariant.
    pub fn process_frame(&mut self, now: u64)
        ensures
            final(self)@ == frame_applied(old(self)@, now),
            old(self).inv() ==> final(self).inv(),
    {
        self.commit_transition();
        self.reconcile_movement();
        self.run_tick(now);
        proof {
            if old(self)@.inv() {
                lemma_frame_preserves_inv(old(self)@, now);
            }
        }
    }
}

/// Committing a staged transition preserves the global invariant; in
/// particular it never leaves the Embark screen paired with a missing or
/// ill-formed tilemap.
pub proof fn lemma_transition_preserves_inv(s: GameStateView)
    requires
        s.inv(),
    ensures
        transition_committed(s).inv(),
{
    match s.next_game_mode {
        Some(GameScreen::Embark) => match s.next_location {
            Some(Location::Embark(p)) => {
                if p.wf() {
                    crate::tilemap::lemma_generated_map_wf(p);
                }
            },
            _ => {},
        },
        _ => {},
    }
}

/// Movement reconciliation preserves the global invariant: the player never
/// leaves the map.
pub proof fn lemma_movement_preserves_inv(s: GameStateView)
    requires
        s.inv(),
    ensures
        movement_applied(s).inv(),
{
}

/// The tick check preserves the global invariant.
pub proof fn lemma_tick_preserves_inv(s: GameStateView, now: u64)
    requires
        s.inv(),
    ensures
        tick_applied(s, now).inv(),
{
    crate::game::lemma_idle_tick_preserves_inv(s);
}

/// A whole frame preserves the global invariant. With the event processor's
/// own preservation lemma, the pairing invariant holds at every observable
/// point between frames.
pub proof fn lemma_frame_preserves_inv(s: GameStateView, now: u64)
    requires
        s.inv(),
    ensures
        frame_applied(s, now).inv(),
{
    lemma_transition_preserves_inv(s);
    lemma_movement_preserves_inv(transition_committed(s));
    lemma_tick_preserves_inv(movement_applied(transition_committed(s)), now);
}

/// Movement rejection: a pending step whose target tile is a `Wall` leaves
/// the player's coordinate on that axis unchanged, and pending deltas are
/// consumed whatever the outcome.
pub proof fn lemma_wall_blocks_movement(s: GameStateView, m: TileMapView)
    requires
        s.game_mode is Embark,
        s.embark_state.tilemap == Some(m),
    ensures
        movement_applied(s).embark_state.del_x is None,
        movement_applied(s).embark_state.del_y is None,
        (s.embark_state.del_x matches Some(d) && m.tile_at(
            s.embark_state.player_x + d,
            s.embark_state.player_y as int,
        ) == Tile::Wall) ==> movement_applied(s).embark_state.player_x
            == s.embark_state.player_x,
        (s.embark_state.del_y matches Some(d) && m.tile_at(
            s.embark_state.player_x as int,
            s.embark_state.player_y + d,
        ) == Tile::Wall) ==> movement_applied(s).embark_state.player_y
            == s.embark_state.player_y,
{
}

/// Reconciliation consumes the staged transition: after any frame no
/// transition request is pending (a staged request is either committed or
/// rejected, and its fields cleared), and the frame never touches the
/// scouted list.
pub proof fn lemma_frame_clears_staging(s: GameStateView, now: u64)
    ensures
        frame_applied(s, now).next_game_mode is None,
        s.next_game_mode is Some ==> frame_applied(s, now).next_location is None,
        frame_applied(s, now).scouted_locations == s.scouted_locations,
{
}

/// Tick gating: with less than one interval elapsed nothing changes; with at
/// least one interval elapsed exactly one economy step runs, however large
/// the gap.
pub proof fn lemma_tick_gating(s: GameStateView, now: u64)
    ensures
        (now < s.last_tick || now - s.last_tick < s.tick_duration) ==> tick_applied(s, now) == s,
        (now >= s.last_tick && now - s.last_tick >= s.tick_duration) ==> tick_applied(s, now)
            == (GameStateView { last_tick: now, ..idle_ticked(s) }),
{
}

} // verus!
