//! The game state: locations, screen modes, intent events, and the event
//! processor that stages state-machine transitions for the per-frame
//! reconciliation pass.
//!
//! Every mutation of [`GameState`] is specified against its mathematical
//! model [`GameStateView`], on which each event and reconciliation phase is a
//! total spec function.

use vstd::prelude::*;

use crate::resources::{Resource, ResourceName, Resources};
use crate::tilemap::{EmbarkParams, TileMap, TileMapView};

verus! {

/// Energy consumed by one successful `SurveySurroundings` action.
pub const SURVEY_ENERGY_COST: u32 = 100;

/// Energy regained per economy tick while at base.
pub const ENERGY_REGEN_PER_TICK: u32 = 1;

/// Default economy tick interval, in milliseconds of the driver's clock.
pub const DEFAULT_TICK_INTERVAL_MILLIS: u64 = 1000;

/// A place the player can be: the unique home base, or one explorable site
/// described by its generation parameters. Equality is structural.
#[derive(Clone, Copy, Debug, PartialEq, Eq)]
pub enum Location {
    AtBase,
    Embark(EmbarkParams),
}

/// Which top-level mode is active or requested.
#[derive(Clone, Copy, Debug, PartialEq, Eq, Structural)]
pub enum GameScreen {
    Idle,
    Embark,
}

/// The keys the platform loop reports. A closed stand-in for the window
/// library's key codes; the driver translates before enqueueing.
#[derive(Clone, Copy, Debug, PartialEq, Eq, Structural)]
pub enum KeyCode {
    I,
    Q,
    Up,
    Down,
    Left,
    Right,
    Space,
}

/// One intent event from the input/UI collaborators.
#[derive(Clone, Copy, Debug)]
pub enum UiEvent {
    EmbarkLocation(Location),
    KeyPress(KeyCode),
    Quit,
    Resize(u32, u32),
    StateTransition(GameScreen),
    SurveySurroundings,
}

/// Mutable per-visit state of one embark: player grid position, pending unit
/// movement deltas, and the generated tilemap (`None` only while at base).
#[derive(Debug, PartialEq)]
pub struct EmbarkState {
    pub player_x: u32,
    pub player_y: u32,
    pub del_x: Option<i32>,
    pub del_y: Option<i32>,
    pub tilemap: Option<TileMap>,
}

/// Mathematical model of an embark session.
#[verifier::ext_equal]
pub struct EmbarkStateView {
    pub player_x: u32,
    pub player_y: u32,
    pub del_x: Option<i32>,
    pub del_y: Option<i32>,
    pub tilemap: Option<TileMapView>,
}

impl View for EmbarkState {
    type V = EmbarkStateView;

    open spec fn view(&self) -> EmbarkStateView {
        EmbarkStateView {
            player_x: self.player_x,
            player_y: self.player_y,
            del_x: self.del_x,
            del_y: self.del_y,
            tilemap: match self.tilemap {
                Some(m) => Some(m@),
                None => None,
            },
        }
    }
}

/// The session state a fresh game (and every return to base) starts from.
pub open spec fn default_embark_view() -> EmbarkStateView {
    EmbarkStateView { player_x: 50, player_y: 50, del_x: None, del_y: None, tilemap: None }
}

impl Default for EmbarkState {
    fn default() -> (s: Self)
        ensures
            s@ == default_embark_view(),
    {
        EmbarkState {
            player_x: 100 / 2,
            player_y: 100 / 2,
            del_x: None,
            del_y: None,
            tilemap: None,
        }
    }
}

/// The parameters the survey placeholder policy hands out.
pub open spec fn default_embark_params() -> EmbarkParams {
    EmbarkParams { seed: 0, dims: (100, 100) }
}

/// The ledger a fresh game starts with: full energy, empty ores.
pub open spec fn initial_resources() -> Resources {
    Resources {
        energy: Resource { cur_val: 100, max_val: 100 },
        iron_ore: Resource { cur_val: 0, max_val: 100 },
        bauxite: Resource { cur_val: 0, max_val: 100 },
        sandstone: Resource { cur_val: 0, max_val: 100 },
    }
}

/// Aggregate root owning the ledger, the current and scouted locations, the
/// embark session, the screen state machine with its staged transition, and
/// the tick bookkeeping. Single-owner, single-threaded.
pub struct GameState {
    pub exit_requested: bool,
    pub screen_width: u32,
    pub screen_height: u32,
    pub last_tick: u64,
    pub tick_duration: u64,
    pub game_mode: GameScreen,
    pub next_game_mode: Option<GameScreen>,
    pub next_location: Option<Location>,
    pub resources: Resources,
    pub cur_location: Location,
    pub scouted_locations: Vec<Location>,
    pub embark_state: EmbarkState,
}

/// Mathematical model of the whole game state.
#[verifier::ext_equal]
pub struct GameStateView {
    pub exit_requested: bool,
    pub screen_width: u32,
    pub screen_height: u32,
    pub last_tick: u64,
    pub tick_duration: u64,
    pub game_mode: GameScreen,
    pub next_game_mode: Option<GameScreen>,
    pub next_location: Option<Location>,
    pub resources: Resources,
    pub cur_location: Location,
    pub scouted_locations: Seq<Location>,
    pub embark_state: EmbarkStateView,
}

impl View for GameState {
    type V = GameStateView;

    open spec fn view(&self) -> GameStateView {
        GameStateView {
            exit_requested: self.exit_requested,
            screen_width: self.screen_width,
            screen_height: self.screen_height,
            last_tick: self.last_tick,
            tick_duration: self.tick_duration,
            game_mode: self.game_mode,
            next_game_mode: self.next_game_mode,
            next_location: self.next_location,
            resources: self.resources,
            cur_location: self.cur_location,
            scouted_locations: self.scouted_locations@,
            embark_state: self.embark_state@,
        }
    }
}

impl GameStateView {
    /// The state-machine pairing invariant, plus the facts movement relies
    /// on: while the Embark screen is active, the current location is an
    /// embark site, a well-formed tilemap is installed, and the player stands
    /// on a valid cell of it.
    pub open spec fn embark_ok(self) -> bool {
        self.game_mode is Embark ==> {
            &&& self.cur_location is Embark
            &&& self.embark_state.tilemap matches Some(m)
            &&& m.wf()
            &&& self.embark_state.player_x < m.width
            &&& self.embark_state.player_y < m.height
        }
    }

    /// Global invariant: a well-formed ledger, no `AtBase` entry among the
    /// scouted locations, and the embark pairing above. Established by
    /// `default` and preserved by every event and reconciliation pass.
    pub open spec fn inv(self) -> bool {
        &&& self.resources.wf()
        &&& forall|i: int|
            0 <= i < self.scouted_locations.len() ==> (#[trigger] self.scouted_locations[i])
                is Embark
        &&& self.embark_ok()
    }
}

impl GameState {
    /// The global invariant, read through the model.
    pub open spec fn inv(self) -> bool {
        self@.inv()
    }
}

impl Default for GameState {
    /// A fresh game: idle at base, full energy, nothing scouted, nothing
    /// staged. `last_tick` starts at zero; a driver running against a real
    /// clock seeds it with its current time before the first frame.
    fn default() -> (s: Self)
        ensures
            s@ == initial_view(),
            s.inv(),
    {
        GameState {
            exit_requested: false,
            screen_width: 1920,
            screen_height: 1080,
            last_tick: 0,
            tick_duration: DEFAULT_TICK_INTERVAL_MILLIS,
            game_mode: GameScreen::Idle,
            next_game_mode: None,
            next_location: None,
            resources: Resources {
                energy: Resource { cur_val: 100, max_val: 100 },
                iron_ore: Resource { cur_val: 0, max_val: 100 },
                bauxite: Resource { cur_val: 0, max_val: 100 },
                sandstone: Resource { cur_val: 0, max_val: 100 },
            },
            cur_location: Location::AtBase,
            scouted_locations: Vec::new(),
            embark_state: EmbarkState::default(),
        }
    }
}

/// The model of a fresh game.
pub open spec fn initial_view() -> GameStateView {
    GameStateView {
        exit_requested: false,
        screen_width: 1920,
        screen_height: 1080,
        last_tick: 0,
        tick_duration: DEFAULT_TICK_INTERVAL_MILLIS,
        game_mode: GameScreen::Idle,
        next_game_mode: None,
        next_location: None,
        resources: initial_resources(),
        cur_location: Location::AtBase,
        scouted_locations: Seq::empty(),
        embark_state: default_embark_view(),
    }
}

/// A fresh game satisfies the global invariant.
pub proof fn lemma_initial_view_inv()
    ensures
        initial_view().inv(),
{
}

/// The state after one keypress is translated into staged updates: `I`
/// stages a return to the idle screen, `Q` requests exit, the arrow keys
/// stage unit movement deltas, and any other key is dropped.
pub open spec fn key_applied(s: GameStateView, key: KeyCode) -> GameStateView {
    match key {
        KeyCode::I => GameStateView { next_game_mode: Some(GameScreen::Idle), ..s },
        KeyCode::Q => GameStateView { exit_requested: true, ..s },
        KeyCode::Up => GameStateView {
            embark_state: EmbarkStateView { del_y: Some(-1i32), ..s.embark_state },
            ..s
        },
        KeyCode::Down => GameStateView {
            embark_state: EmbarkStateView { del_y: Some(1i32), ..s.embark_state },
            ..s
        },
        KeyCode::Left => GameStateView {
            embark_state: EmbarkStateView { del_x: Some(-1i32), ..s.embark_state },
            ..s
        },
        KeyCode::Right => GameStateView {
            embark_state: EmbarkStateView { del_x: Some(1i32), ..s.embark_state },
            ..s
        },
        KeyCode::Space => s,
    }
}

/// The state after one intent event. Every recognized event's effect is
/// pinned exactly; `SurveySurroundings` only acts when the energy cost is
/// covered and is a silent no-op otherwise.
pub open spec fn event_applied(s: GameStateView, e: UiEvent) -> GameStateView {
    match e {
        UiEvent::EmbarkLocation(loc) => GameStateView {
            next_game_mode: Some(GameScreen::Embark),
            next_location: Some(loc),
            ..s
        },
        UiEvent::KeyPress(k) => key_applied(s, k),
        UiEvent::Quit => GameStateView { exit_requested: true, ..s },
        UiEvent::Resize(w, h) => GameStateView { screen_width: w, screen_height: h, ..s },
        UiEvent::StateTransition(g) => GameStateView { next_game_mode: Some(g), ..s },
        UiEvent::SurveySurroundings => {
            if s.resources.energy.cur_val >= SURVEY_ENERGY_COST {
                GameStateView {
                    resources: s.resources.spec_accumulate(
                        ResourceName::Energy,
                        -(SURVEY_ENERGY_COST as int),
                    ),
                    scouted_locations: s.scouted_locations.push(
                        Location::Embark(default_embark_params()),
                    ),
                    ..s
                }
            } else {
                s
            }
        },
    }
}

/// The state after a whole queue of events, consumed in arrival order.
pub open spec fn events_applied(s: GameStateView, events: Seq<UiEvent>) -> GameStateView
    decreases events.len(),
{
    if events.len() == 0 {
        s
    } else {
        event_applied(events_applied(s, events.drop_last()), events.last())
    }
}

impl Location {
    /// Placeholder policy for the survey action: a fresh embark location with
    /// the default parameters.
    fn generate_location(_state: &GameState) -> (loc: Location)
        ensures
            loc == Location::Embark(default_embark_params()),
    {
        Location::Embark(EmbarkParams::default())
    }
}

impl GameState {
    /// Scouts one new location and appends it to the scouted list; the rest
    /// of the state is untouched.
    fn survey_surroundings(&mut self)
        ensures
            final(self)@ == (GameStateView {
                scouted_locations: old(self)@.scouted_locations.push(
                    Location::Embark(default_embark_params()),
                ),
                ..old(self)@
            }),
    {
        let location = Location::generate_location(self);
        self.scouted_locations.push(location);
    }

    /// Translates one keypress into staged updates.
    pub fn process_keypress(&mut self, keycode: KeyCode)
        ensures
            final(self)@ == key_applied(old(self)@, keycode),
    {
        match keycode {
            KeyCode::I => {
                self.next_game_mode = Some(GameScreen::Idle);
            },
            KeyCode::Q => {
                self.exit_requested = true;
            },
            KeyCode::Up => {
                self.embark_state.del_y = Some(-1);
            },
            KeyCode::Down => {
                self.embark_state.del_y = Some(1);
            },
            KeyCode::Left => {
                self.embark_state.del_x = Some(-1);
            },
            KeyCode::Right => {
                self.embark_state.del_x = Some(1);
            },
            KeyCode::Space => {},
        }
    }

    /// Drains the event queue in arrival order, applying each event's staged
    /// update; the queue is left empty.
    pub fn process_inputs(&mut self, events: &mut Vec<UiEvent>)
        ensures
            final(events)@.len() == 0,
            final(self)@ == events_applied(old(self)@, old(events)@),
            old(self).inv() ==> final(self).inv(),
    {
        proof {
            if old(self).inv() {
                lemma_events_applied_preserve_inv(old(self)@, old(events)@);
            }
        }
        let ghost s0 = self@;
        let ghost q0 = events@;
        let n = events.len();
        let mut i: usize = 0;
        proof {
            assert(q0.take(0) =~= Seq::<UiEvent>::empty());
        }
        while i < n
            invariant
                i <= n,
                n == q0.len(),
                events@ == q0,
                self@ == events_applied(s0, q0.take(i as int)),
            decreases n - i,
        {
            let ghost mid = self@;
            let e = events[i];
            match e {
                UiEvent::EmbarkLocation(location) => {
                    self.next_game_mode = Some(GameScreen::Embark);
                    self.next_location = Some(location);
                },
                UiEvent::KeyPress(key) => {
                    self.process_keypress(key);
                },
                UiEvent::Quit => {
                    self.exit_requested = true;
                },
                UiEvent::Resize(w, h) => {
                    self.screen_width = w;
                    self.screen_height = h;
                },
                UiEvent::StateTransition(next_game_screen) => {
                    self.next_game_mode = Some(next_game_screen);
                },
                UiEvent::SurveySurroundings => {
                    if self.resources.energy.cur_val >= SURVEY_ENERGY_COST {
                        self.resources.accumulate(
                            ResourceName::Energy,
                            -(SURVEY_ENERGY_COST as i32),
                        );
                        self.survey_surroundings();
                    }
                },
            }
            proof {
                assert(self@ =~~= event_applied(mid, q0[i as int]));
                assert(q0.take(i + 1).drop_last() =~= q0.take(i as int));
                assert(q0.take(i + 1).last() == q0[i as int]);
                assert(self@ == events_applied(s0, q0.take(i + 1)));
            }
            i = i + 1;
        }
        events.clear();
        proof {
            assert(q0.take(n as int) =~= q0);
        }
    }

    /// One discrete economy step: while at base, regain a fixed amount of
    /// energy, clamped to the maximum; while embarked, no passive effects.
    pub fn idle_tick(&mut self)
        ensures
            final(self)@ == idle_ticked(old(self)@),
    {
        match self.cur_location {
            Location::AtBase => {
                self.resources.accumulate(ResourceName::Energy, ENERGY_REGEN_PER_TICK as i32);
            },
            Location::Embark(_val) => {},
        }
    }
}

/// The state after one economy step.
pub open spec fn idle_ticked(s: GameStateView) -> GameStateView {
    match s.cur_location {
        Location::AtBase => GameStateView {
            resources: s.resources.spec_accumulate(
                ResourceName::Energy,
                ENERGY_REGEN_PER_TICK as int,
            ),
            ..s
        },
        Location::Embark(_) => s,
    }
}

/// One event preserves the global invariant.
pub proof fn lemma_event_applied_preserves_inv(s: GameStateView, e: UiEvent)
    requires
        s.inv(),
    ensures
        event_applied(s, e).inv(),
{
    match e {
        UiEvent::SurveySurroundings => {
            if s.resources.energy.cur_val >= SURVEY_ENERGY_COST {
                crate::resources::lemma_ledger_accumulate_wf(
                    s.resources,
                    ResourceName::Energy,
                    -(SURVEY_ENERGY_COST as int),
                );
                let post = event_applied(s, e);
                assert forall|i: int| 0 <= i < post.scouted_locations.len() implies (
                #[trigger] post.scouted_locations[i]) is Embark by {
                    if i < s.scouted_locations.len() {
                        assert(s.scouted_locations[i] is Embark);
                    }
                }
            }
        },
        _ => {},
    }
}

/// A whole queue of events preserves the global invariant.
pub proof fn lemma_events_applied_preserve_inv(s: GameStateView, events: Seq<UiEvent>)
    requires
        s.inv(),
    ensures
        events_applied(s, events).inv(),
    decreases events.len(),
{
    if events.len() > 0 {
        lemma_events_applied_preserve_inv(s, events.drop_last());
        lemma_event_applied_preserves_inv(events_applied(s, events.drop_last()), events.last());
    }
}

/// The scouted list is append-only: event processing never removes or
/// reorders what was already scouted.
pub proof fn lemma_scouted_append_only(s: GameStateView, events: Seq<UiEvent>)
    ensures
        events_applied(s, events).scouted_locations.len() >= s.scouted_locations.len(),
        forall|i: int|
            0 <= i < s.scouted_locations.len() ==> events_applied(
                s,
                events,
            ).scouted_locations[i] == s.scouted_locations[i],
    decreases events.len(),
{
    if events.len() > 0 {
        lemma_scouted_append_only(s, events.drop_last());
        let mid = events_applied(s, events.drop_last());
        let post = event_applied(mid, events.last());
        assert forall|i: int| 0 <= i < s.scouted_locations.len() implies post.scouted_locations[i]
            == s.scouted_locations[i] by {
            assert(mid.scouted_locations[i] == s.scouted_locations[i]);
        }
    }
}

/// One economy step preserves the global invariant.
pub proof fn lemma_idle_tick_preserves_inv(s: GameStateView)
    requires
        s.inv(),
    ensures
        idle_ticked(s).inv(),
{
    if s.cur_location is AtBase {
        crate::resources::lemma_ledger_accumulate_wf(
            s.resources,
            ResourceName::Energy,
            ENERGY_REGEN_PER_TICK as int,
        );
    }
}

} // verus!
