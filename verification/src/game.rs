//! The game's state machine: screens, input handling, exploration, combat
//! resolution and victory bookkeeping.
//!
//! The library decides; the surrounding program performs. Every handler
//! returns an [`Effect`] naming the persistence work the caller should do,
//! and session loading is handed in as plain values, so the state machine
//! itself stays free of input and output.

use vstd::prelude::*;
use vstd::string::StringExecFns;

use crate::combat::{combat_bounds, execute_action_post, CombatState, CombatPhase, ACTION_COUNT};
use crate::player::{clone_item, Player};
use crate::textfmt::{chars_of, is_alnum, is_alnum_char, string_from_chars, i32_to_string};
use crate::world::{build_world, world_wf, Tile, TileEvent, WorldState};

verus! {

/// Which screen the game shows.
#[derive(Debug, Clone, Copy, PartialEq, Eq, Structural)]
pub enum Screen {
    Title,
    NameEntry,
    Explore,
    Combat,
    Inventory,
    GameOver,
    Victory,
}

/// A key press, as the state machine sees it; the caller translates its
/// terminal events into these.
#[derive(Debug, Clone, Copy, PartialEq, Eq, Structural)]
pub enum InputKey {
    Up,
    Down,
    Enter,
    Escape,
    Backspace,
    Letter(char),
    Other,
}

/// What the caller should do after a handler returns: nothing, persist the
/// player, persist both the player and the world, or load the named
/// hunter's save and call [`GameState::start_game`] with what it found.
#[derive(Debug, Clone)]
pub enum Effect {
    Idle,
    PersistPlayer,
    PersistAll,
    BeginSession(String),
}

/// One hunter's whole session.
pub struct GameState {
    pub screen: Screen,
    pub player: Player,
    pub tiles: Vec<Tile>,
    pub world_state: WorldState,
    pub combat: Option<CombatState>,
    pub log: Vec<String>,
    pub selected: usize,
    pub should_quit: bool,
    pub name_input: Vec<char>,
    pub tile_event_index: usize,
}

/// Whether a sequence of strings holds one whose characters are `s`.
pub open spec fn has_string(v: Seq<String>, s: Seq<char>) -> bool {
    exists|i: int| 0 <= i < v.len() && v[i]@ == s
}

fn vec_contains_str(v: &Vec<String>, s: &String) -> (r: bool)
    ensures
        r == has_string(v@, s@),
{
    let mut i: usize = 0;
    while i < v.len()
        invariant
            i <= v@.len(),
            forall|j: int| 0 <= j < i ==> v@[j]@ != s@,
        decreases v@.len() - i,
    {
        if v[i].eq(s) {
            proof {
                assert(v@[i as int]@ == s@);
            }
            return true;
        }
        i = i + 1;
    }
    false
}

impl GameState {
    /// The structural invariant: the map is well formed and the player
    /// stands on one of its tiles.
    pub open spec fn wf(self) -> bool {
        &&& world_wf(self.tiles@)
        &&& self.tiles@.len() >= 1
        &&& (self.player.current_tile as int) < self.tiles@.len()
    }

    /// Arithmetic room the handlers need: a player whose health is within
    /// its maximum and whose counters have space left, and, during combat,
    /// the room one combat round needs.
    pub open spec fn input_bounds(self) -> bool {
        &&& 0 <= self.player.hp
        &&& self.player.hp <= self.player.max_hp
        &&& self.tile_event_index < usize::MAX
        &&& self.tiles@.len() < usize::MAX
        &&& forall|i: int|
            0 <= i < self.tiles@.len() ==> #[trigger] self.tiles@[i].connections@.len()
                < usize::MAX
        &&& self.combat is Some ==> {
            let c = self.combat->0;
            &&& combat_bounds(c, self.player)
            &&& self.player.exp + c.exp_reward <= u32::MAX
            &&& 50 * (self.player.level + 1) <= u32::MAX
            &&& self.player.max_hp + 5 <= i32::MAX
            &&& self.player.attack + 2 <= i32::MAX
            &&& self.player.defense + 1 <= i32::MAX
            &&& self.world_state.global_kill_count < u32::MAX
        }
    }

    /// Checks the arithmetic room the handlers need; the exec counterpart
    /// of `input_bounds`, for callers that cannot evaluate the
    /// specification.
    pub fn input_bounds_check(&self) -> (b: bool)
        ensures
            b == self.input_bounds(),
    {
        if !(0 <= self.player.hp && self.player.hp <= self.player.max_hp) {
            return false;
        }
        if !(self.tile_event_index < usize::MAX && self.tiles.len() < usize::MAX) {
            return false;
        }
        let mut i: usize = 0;
        while i < self.tiles.len()
            invariant
                i <= self.tiles@.len(),
                forall|k: int|
                    0 <= k < i ==> #[trigger] self.tiles@[k].connections@.len() < usize::MAX,
            decreases self.tiles@.len() - i,
        {
            if self.tiles[i].connections.len() == usize::MAX {
                return false;
            }
            i = i + 1;
        }
        let c = match &self.combat {
            None => {
                return true;
            },
            Some(c) => c,
        };
        let p = &self.player;
        if p.defense < 0 || c.enemy_damage_dice.sides < 1 {
            return false;
        }
        proof {
            assert(c.enemy_damage_dice.count as int * (c.enemy_damage_dice.sides as int)
                <= 0xFFFF_FFFF * 0xFFFF_FFFF) by (nonlinear_arith)
                requires
                    c.enemy_damage_dice.count <= 0xFFFF_FFFFu32,
                    c.enemy_damage_dice.sides <= 0xFFFF_FFFFu32,
            ;
        }
        let dice_max: i128 = {
            let raw: i128 = (c.enemy_damage_dice.count as i128) * (c.enemy_damage_dice.sides
                as i128) + (c.enemy_damage_dice.bonus as i128);
            if raw < 1 {
                1
            } else {
                raw
            }
        };
        if (c.enemy_damage_dice.count as u64) * (c.enemy_damage_dice.sides as u64) > (i32::MAX
            as u64) {
            return false;
        }
        if (c.enemy_damage_dice.count as i128) * (c.enemy_damage_dice.sides as i128)
            + (c.enemy_damage_dice.bonus as i128) > i32::MAX as i128 {
            return false;
        }
        if (p.hp as i128) - dice_max < i32::MIN as i128 {
            return false;
        }
        if (p.max_hp as i128) - dice_max < i32::MIN as i128 {
            return false;
        }
        let best = p.best_weapon_damage();
        let ta: i128 = (p.attack as i128) + (best as i128);
        if ta < i32::MIN as i128 || ta > (i32::MAX as i128) - 6 {
            return false;
        }
        let hit: i128 = if ta + 6 > 1 {
            ta + 6
        } else {
            1
        };
        if (c.enemy_hp as i128) - hit < i32::MIN as i128 {
            return false;
        }
        match crate::player::first_potion_value(&p.inventory) {
            Some(v) => {
                let sum: i128 = (p.hp as i128) + (v as i128);
                if !((i32::MIN as i128) + dice_max <= sum && sum <= i32::MAX as i128) {
                    return false;
                }
            },
            None => {},
        }
        if (p.exp as u64) + (c.exp_reward as u64) > u32::MAX as u64 {
            return false;
        }
        if 50 * ((p.level as u64) + 1) > u32::MAX as u64 {
            return false;
        }
        if (p.max_hp as i64) + 5 > i32::MAX as i64 || (p.attack as i64) + 2 > i32::MAX as i64 || (
        p.defense as i64) + 1 > i32::MAX as i64 {
            return false;
        }
        if self.world_state.global_kill_count >= u32::MAX {
            return false;
        }
        true
    }

    /// A fresh session: the fixed world, a nameless level-one hunter on
    /// the village square, the title screen, and a welcome line.
    pub fn new() -> (g: GameState)
        ensures
            g.wf(),
            g.screen is Title,
            g.tiles@.len() == 9,
            g.player.current_tile == 0,
            g.player.name@.len() == 0,
            g.player.hp == 30 && g.player.max_hp == 30 && g.player.level == 1,
            g.world_state.defeated_bosses@.len() == 0,
            g.world_state.global_kill_count == 0,
            g.combat is None,
            g.log@.len() == 1,
            g.selected == 0,
            !g.should_quit,
            g.name_input@.len() == 0,
            g.tile_event_index == 0,
    {
        let tiles = build_world();
        let mut log: Vec<String> = Vec::new();
        log.push(String::from_str("Welcome to Hunter Game."));
        GameState {
            screen: Screen::Title,
            player: Player::new(String::new()),
            tiles,
            world_state: WorldState::default(),
            combat: None,
            log,
            selected: 0,
            should_quit: false,
            name_input: Vec::new(),
            tile_event_index: 0,
        }
    }

    /// The tile the player stands on.
    pub fn current_tile(&self) -> (t: &Tile)
        requires
            self.wf(),
        ensures
            *t == self.tiles@[self.player.current_tile as int],
    {
        &self.tiles[self.player.current_tile]
    }

    /// How many choices the explore menu offers on a tile: one per
    /// connection, plus looking around.
    pub fn explore_options_count(&self, tile: &Tile) -> (n: usize)
        requires
            tile.connections@.len() < usize::MAX,
        ensures
            n as int == tile.connections@.len() + 1,
    {
        tile.connections.len() + 1
    }

    /// Appends the current tile's header and description to the log,
    /// followed by up to three of the newest messages other hunters left
    /// on this tile, newest first.
    pub fn describe_current_tile(&mut self)
        requires
            old(self).wf(),
        ensures
            final(self).wf(),
            *final(self) == (GameState { log: final(self).log, ..*old(self) }),
            old(self).log@.is_prefix_of(final(self).log@),
            old(self).log@.len() + 2 <= final(self).log@.len() <= old(self).log@.len() + 5,
            final(self).log@[old(self).log@.len() as int]@ == "-- "@ + old(self).tiles@[old(self).player.current_tile as int].name@ + " --"@,
            final(self).log@[old(self).log@.len() as int + 1] == old(self).tiles@[old(self).player.current_tile as int].description,
    {
        let ghost pre = *self;
        let cur: usize = self.player.current_tile;
        let mut header = String::from_str("-- ");
        header.append(self.tiles[cur].name.as_str());
        header.append(" --");
        self.log.push(header);
        let desc = self.tiles[cur].description.clone();
        self.log.push(desc);
        let ghost base = self.log@;
        proof {
            assert(base.len() == pre.log@.len() + 2);
            assert(base[pre.log@.len() as int]@ == "-- "@ + pre.tiles@[cur as int].name@
                + " --"@);
            assert(base[pre.log@.len() as int + 1] == pre.tiles@[cur as int].description);
        }
        let tile_id: usize = self.tiles[cur].id;
        let mut shown: usize = 0;
        let mut i: usize = self.world_state.messages.len();
        while i > 0 && shown < 3
            invariant
                self.wf(),
                *self == (GameState { log: self.log, ..pre }),
                i <= self.world_state.messages@.len(),
                shown <= 3,
                base.is_prefix_of(self.log@),
                self.log@.len() == base.len() + shown,
                base.len() == pre.log@.len() + 2,
            decreases i,
        {
            i = i - 1;
            let m = &self.world_state.messages[i];
            if m.tile_id == tile_id {
                let mut line = String::from_str("  [");
                line.append(m.author.as_str());
                line.append("]: \"");
                line.append(m.text.as_str());
                line.append("\"");
                let ghost before = self.log@;
                self.log.push(line);
                proof {
                    assert(self.log@.subrange(0, base.len() as int) =~= before.subrange(
                        0,
                        base.len() as int,
                    ));
                }
                shown = shown + 1;
            }
        }
        proof {
            assert(self.log@.subrange(0, pre.log@.len() as int) =~= pre.log@);
            assert(self.log@[pre.log@.len() as int] == base[pre.log@.len() as int]);
            assert(self.log@[pre.log@.len() as int + 1] == base[pre.log@.len() as int + 1]);
        }
    }

    /// Marks that the player's progress should be persisted; the caller
    /// performs the write.
    pub fn auto_save(&self) -> (e: Effect)
        ensures
            e is PersistPlayer,
    {
        Effect::PersistPlayer
    }

    /// Begins a session for the named hunter: the caller hands in the
    /// hunter's loaded save (if one was found, and it must stand on a
    /// tile of this world) and the reloaded shared world state (if that
    /// succeeded); a hunter without a save starts fresh. Exploration
    /// begins on the saved or starting tile with a greeting in the log.
    pub fn start_game(&mut self, name: String, saved: Option<Player>, reloaded: Option<WorldState>)
        requires
            old(self).wf(),
            saved is Some ==> (saved->0.current_tile as int) < old(self).tiles@.len(),
        ensures
            final(self).wf(),
            final(self).screen is Explore,
            final(self).selected == 0,
            final(self).tile_event_index == 0,
            saved is Some ==> final(self).player == saved->0,
            saved is None ==> final(self).player.name == name && final(self).player.hp == 30
                && final(self).player.level == 1 && final(self).player.current_tile == 0,
            reloaded is Some ==> final(self).world_state == reloaded->0,
            reloaded is None ==> final(self).world_state == old(self).world_state,
            final(self).tiles == old(self).tiles,
            final(self).log@.len() >= 3,
    {
        match saved {
            Some(p) => {
                let mut msg = String::from_str("Welcome back, ");
                msg.append(p.name.as_str());
                msg.append("!");
                self.player = p;
                let mut log: Vec<String> = Vec::new();
                log.push(msg);
                self.log = log;
            },
            None => {
                let mut msg = String::from_str("A new hunter rises: ");
                msg.append(name.as_str());
                msg.append("!");
                self.player = Player::new(name);
                let mut log: Vec<String> = Vec::new();
                log.push(msg);
                self.log = log;
            },
        }
        if let Some(ws) = reloaded {
            self.world_state = ws;
        }
        self.screen = Screen::Explore;
        self.selected = 0;
        self.tile_event_index = 0;
        self.describe_current_tile();
    }

    /// On the title screen: enter or space moves to name entry, `q` quits.
    pub fn handle_title(&mut self, key: InputKey) -> (e: Effect)
        requires
            old(self).wf(),
        ensures
            final(self).wf(),
            e is Idle,
            key is Enter || key == (InputKey::Letter(' ')) ==> *final(self) == (GameState {
                screen: Screen::NameEntry,
                name_input: final(self).name_input,
                ..*old(self)
            }) && final(self).name_input@.len() == 0,
            key == (InputKey::Letter('q')) ==> *final(self) == (GameState {
                should_quit: true,
                ..*old(self)
            }),
            !(key is Enter || key == (InputKey::Letter(' ')) || key == (InputKey::Letter('q')))
                ==> *final(self) == *old(self),
    {
        match key {
            InputKey::Enter => {
                self.screen = Screen::NameEntry;
                self.name_input = Vec::new();
            },
            InputKey::Letter(c) => {
                if c == ' ' {
                    self.screen = Screen::NameEntry;
                    self.name_input = Vec::new();
                } else if c == 'q' {
                    self.should_quit = true;
                }
            },
            _ => {},
        }
        Effect::Idle
    }

    /// On the name-entry screen: characters accumulate up to twenty,
    /// backspace deletes, escape returns to the title, and enter asks the
    /// caller to begin a session under the trimmed name — unless the name
    /// is all white space.
    pub fn handle_name_entry(&mut self, key: InputKey) -> (e: Effect)
        requires
            old(self).wf(),
        ensures
            final(self).wf(),
            key is Enter ==> *final(self) == *old(self) && (e is BeginSession
                <==> !crate::textfmt::all_space(old(self).name_input@)),
            key is Backspace ==> e is Idle && *final(self) == (GameState {
                name_input: final(self).name_input,
                ..*old(self)
            }) && final(self).name_input@ == (if old(self).name_input@.len() > 0 {
                old(self).name_input@.take(old(self).name_input@.len() as int - 1)
            } else {
                old(self).name_input@
            }),
            key matches InputKey::Letter(c) ==> e is Idle && *final(self) == (GameState {
                name_input: final(self).name_input,
                ..*old(self)
            }) && final(self).name_input@ == (if old(self).name_input@.len() < 20 {
                old(self).name_input@.push(c)
            } else {
                old(self).name_input@
            }),
            key is Escape ==> e is Idle && *final(self) == (GameState {
                screen: Screen::Title,
                ..*old(self)
            }),
    {
        match key {
            InputKey::Enter => {
                let trimmed = crate::textfmt::trim_chars(&self.name_input);
                if trimmed.len() == 0 {
                    return Effect::Idle;
                }
                Effect::BeginSession(string_from_chars(trimmed))
            },
            InputKey::Backspace => {
                self.name_input.pop();
                proof {
                    if old(self).name_input@.len() > 0 {
                        assert(self.name_input@ =~= old(self).name_input@.take(
                            old(self).name_input@.len() as int - 1,
                        ));
                    }
                }
                Effect::Idle
            },
            InputKey::Letter(c) => {
                if self.name_input.len() < 20 {
                    self.name_input.push(c);
                }
                Effect::Idle
            },
            InputKey::Escape => {
                self.screen = Screen::Title;
                Effect::Idle
            },
            _ => Effect::Idle,
        }
    }

    /// On the inventory screen: escape or `i` returns to exploration, up
    /// and down move the selection within the inventory.
    pub fn handle_inventory(&mut self, key: InputKey) -> (e: Effect)
        requires
            old(self).wf(),
        ensures
            final(self).wf(),
            e is Idle,
            key is Escape || key == (InputKey::Letter('i')) ==> *final(self) == (GameState {
                screen: Screen::Explore,
                selected: 0,
                ..*old(self)
            }),
            key is Up ==> *final(self) == (GameState {
                selected: if old(self).selected > 0 {
                    (old(self).selected - 1) as usize
                } else {
                    0
                },
                ..*old(self)
            }),
            key is Down ==> *final(self) == (GameState {
                selected: if old(self).player.inventory@.len() > 0 && old(self).selected + 1 < old(self).player.inventory@.len() {
                    (old(self).selected + 1) as usize
                } else {
                    old(self).selected
                },
                ..*old(self)
            }),
    {
        match key {
            InputKey::Escape => {
                self.screen = Screen::Explore;
                self.selected = 0;
            },
            InputKey::Letter(c) => {
                if c == 'i' {
                    self.screen = Screen::Explore;
                    self.selected = 0;
                }
            },
            InputKey::Up => {
                if self.selected > 0 {
                    self.selected = self.selected - 1;
                }
            },
            InputKey::Down => {
                if self.player.inventory.len() > 0 && self.selected < self.player.inventory.len()
                    - 1 {
                    self.selected = self.selected + 1;
                }
            },
            _ => {},
        }
        Effect::Idle
    }

    /// After a defeat or a victory: enter or `r` restarts with the same
    /// name on the starting tile, `q` quits.
    pub fn handle_game_over(&mut self, key: InputKey) -> (e: Effect)
        requires
            old(self).wf(),
        ensures
            final(self).wf(),
            !(e is BeginSession),
            key is Enter || key == (InputKey::Letter('r')) ==> e is PersistPlayer
                && final(self).screen is Explore
                && final(self).player.name == old(self).player.name
                && final(self).player.hp == 30
                && final(self).player.level == 1
                && final(self).player.current_tile == 0
                && final(self).selected == 0,
            key == (InputKey::Letter('q')) ==> *final(self) == (GameState {
                should_quit: true,
                ..*old(self)
            }) && e is Idle,
            !(key is Enter || key == (InputKey::Letter('r')) || key == (InputKey::Letter('q')))
                ==> *final(self) == *old(self) && e is Idle,
    {
        let restart: bool = match key {
            InputKey::Enter => true,
            InputKey::Letter(c) => {
                if c == 'q' {
                    self.should_quit = true;
                    return Effect::Idle;
                }
                c == 'r'
            },
            _ => false,
        };
        if restart {
            let name = self.player.name.clone();
            self.player = Player::new(name);
            self.screen = Screen::Explore;
            self.selected = 0;
            let mut log: Vec<String> = Vec::new();
            log.push(String::from_str("You awaken once more..."));
            self.log = log;
            self.describe_current_tile();
            return self.auto_save();
        }
        Effect::Idle
    }
}

/// How one tile event, when triggered while exploring, changes the
/// session: a not-yet-defeated boss or any other enemy starts a fight; an
/// already-defeated boss, a quiet find or an empty event only logs a line.
pub open spec fn trigger_event_rel(g0: GameState, g1: GameState, ev: TileEvent) -> bool {
    match ev {
        TileEvent::Enemy(t) => {
            if t.is_boss && has_string(g0.world_state.defeated_bosses@, t.name@) {
                &&& g1 == (GameState { log: g1.log, ..g0 })
                &&& g0.log@.is_prefix_of(g1.log@)
                &&& g1.log@.len() == g0.log@.len() + 1
            } else {
                &&& g1.combat is Some
                &&& g1.combat->0.enemy_name == t.name
                &&& g1.combat->0.enemy_hp == t.hp
                &&& g1.combat->0.exp_reward == t.exp_reward
                &&& g1.combat->0.is_boss == t.is_boss
                &&& g1.combat->0.phase is PlayerChoosing
                &&& g1.screen is Combat
                &&& g1.selected == 0
                &&& g1 == (GameState {
                    combat: g1.combat,
                    screen: Screen::Combat,
                    selected: 0,
                    ..g0
                })
            }
        },
        TileEvent::Nothing => {
            &&& g1 == (GameState { log: g1.log, ..g0 })
            &&& g0.log@.is_prefix_of(g1.log@)
            &&& g1.log@.len() == g0.log@.len() + 1
        },
        _ => g1 == g0,
    }
}

/// How looking around changes the session, by the event the look cycled
/// to: an enemy starts a fight (unless an already-defeated boss), an item
/// joins the inventory, a character speaks, a rest restores full health,
/// and nothing new only logs a line.
pub open spec fn interact_rel(g0: GameState, g1: GameState, ev: TileEvent, e: Effect) -> bool {
    match ev {
        TileEvent::Enemy(t) => {
            &&& e is Idle
            &&& if t.is_boss && has_string(g0.world_state.defeated_bosses@, t.name@) {
                &&& g1 == (GameState {
                    log: g1.log,
                    tile_event_index: g1.tile_event_index,
                    ..g0
                })
                &&& g0.log@.is_prefix_of(g1.log@)
                &&& g1.log@.len() == g0.log@.len() + 1
            } else {
                &&& g1.combat is Some
                &&& g1.combat->0.enemy_name == t.name
                &&& g1.combat->0.enemy_hp == t.hp
                &&& g1.combat->0.exp_reward == t.exp_reward
                &&& g1.combat->0.is_boss == t.is_boss
                &&& g1.combat->0.phase is PlayerChoosing
                &&& g1.screen is Combat
                &&& g1.selected == 0
                &&& g1 == (GameState {
                    combat: g1.combat,
                    screen: Screen::Combat,
                    selected: 0,
                    tile_event_index: g1.tile_event_index,
                    ..g0
                })
            }
        },
        TileEvent::ItemPickup(it) => {
            &&& e is PersistPlayer
            &&& g1.player.inventory@ == g0.player.inventory@.push(it)
            &&& g1.player == (Player { inventory: g1.player.inventory, ..g0.player })
            &&& g1 == (GameState {
                player: g1.player,
                log: g1.log,
                tile_event_index: g1.tile_event_index,
                ..g0
            })
            &&& g0.log@.is_prefix_of(g1.log@)
            &&& g1.log@.len() == g0.log@.len() + 1
        },
        TileEvent::Npc { name, dialogue } => {
            &&& e is Idle
            &&& g1 == (GameState {
                log: g1.log,
                tile_event_index: g1.tile_event_index,
                ..g0
            })
            &&& g0.log@.is_prefix_of(g1.log@)
            &&& g1.log@.len() == g0.log@.len() + 1
        },
        TileEvent::Rest => {
            &&& e is PersistPlayer
            &&& g1.player == (Player { hp: g0.player.max_hp, ..g0.player })
            &&& g1 == (GameState {
                player: g1.player,
                log: g1.log,
                tile_event_index: g1.tile_event_index,
                ..g0
            })
            &&& g0.log@.is_prefix_of(g1.log@)
            &&& g1.log@.len() == g0.log@.len() + 1
        },
        TileEvent::Nothing => {
            &&& e is Idle
            &&& g1 == (GameState {
                log: g1.log,
                tile_event_index: g1.tile_event_index,
                ..g0
            })
            &&& g0.log@.is_prefix_of(g1.log@)
            &&& g1.log@.len() == g0.log@.len() + 1
        },
    }
}

/// How looking around changes the session as a whole: on a tile without
/// events only a line is logged; otherwise the cycle index advances and
/// the event it pointed at resolves per `interact_rel`.
pub open spec fn interact_post(g0: GameState, g1: GameState, e: Effect) -> bool {
    let tile = g0.tiles@[g0.player.current_tile as int];
    if tile.events@.len() == 0 {
        &&& e is Idle
        &&& g1 == (GameState { log: g1.log, ..g0 })
        &&& g0.log@.is_prefix_of(g1.log@)
        &&& g1.log@.len() == g0.log@.len() + 1
    } else {
        &&& g1.tile_event_index == g0.tile_event_index + 1
        &&& interact_rel(
            g0,
            g1,
            tile.events@[g0.tile_event_index as int % tile.events@.len() as int],
            e,
        )
    }
}

impl GameState {
    /// Rolls for a tile event on arrival: one of the tile's events is
    /// picked at random; an enemy starts a fight (a boss another hunter
    /// already slew does not), a quiet find logs a line, and the rest wait
    /// to be found by looking around.
    fn trigger_tile_event(&mut self)
        requires
            old(self).wf(),
        ensures
            final(self).wf(),
            final(self).player == old(self).player,
            ({
                let events = old(self).tiles@[old(self).player.current_tile as int].events@;
                if events.len() == 0 {
                    *final(self) == *old(self)
                } else {
                    exists|k: int|
                        0 <= k < events.len() && trigger_event_rel(
                            *old(self),
                            *final(self),
                            #[trigger] events[k],
                        )
                }
            }),
    {
        let cur: usize = self.player.current_tile;
        let n: usize = self.tiles[cur].events.len();
        if n == 0 {
            return ;
        }
        let k: usize = crate::dice::rand_index(n);
        let ev = clone_event(&self.tiles[cur].events[k]);
        match ev {
            TileEvent::Enemy(template) => {
                if template.is_boss && vec_contains_str(
                    &self.world_state.defeated_bosses,
                    &template.name,
                ) {
                    let mut msg = String::from_str("The ");
                    msg.append(template.name.as_str());
                    msg.append(" has already been slain by another hunter.");
                    self.log.push(msg);
                    proof {
                        assert(self.log@.subrange(0, old(self).log@.len() as int) =~= old(self).log@);
                    }
                } else {
                    self.combat = Some(CombatState::from_template(&template));
                    self.screen = Screen::Combat;
                    self.selected = 0;
                }
            },
            TileEvent::Nothing => {
                self.log.push(String::from_str("The area is quiet."));
                proof {
                    assert(self.log@.subrange(0, old(self).log@.len() as int) =~= old(self).log@);
                }
            },
            _ => {},
        }
        proof {
            let events = old(self).tiles@[old(self).player.current_tile as int].events@;
            assert(trigger_event_rel(*old(self), *self, events[k as int]));
        }
    }

    /// Looks around the current tile, cycling through its events.
    pub fn interact_with_tile(&mut self) -> (e: Effect)
        requires
            old(self).wf(),
            old(self).input_bounds(),
        ensures
            final(self).wf(),
            !(e is BeginSession),
            interact_post(*old(self), *final(self), e),
    {
        let cur: usize = self.player.current_tile;
        let n: usize = self.tiles[cur].events.len();
        if n == 0 {
            self.log.push(String::from_str("Nothing of interest here."));
            proof {
                assert(self.log@.subrange(0, old(self).log@.len() as int) =~= old(self).log@);
            }
            return Effect::Idle;
        }
        let idx: usize = self.tile_event_index % n;
        let ev = clone_event(&self.tiles[cur].events[idx]);
        self.tile_event_index = self.tile_event_index + 1;
        match ev {
            TileEvent::Enemy(template) => {
                if template.is_boss && vec_contains_str(
                    &self.world_state.defeated_bosses,
                    &template.name,
                ) {
                    let mut msg = String::from_str("The ");
                    msg.append(template.name.as_str());
                    msg.append(" has already been defeated.");
                    self.log.push(msg);
                    proof {
                        assert(self.log@.subrange(0, old(self).log@.len() as int) =~= old(self).log@);
                    }
                    Effect::Idle
                } else {
                    self.combat = Some(CombatState::from_template(&template));
                    self.screen = Screen::Combat;
                    self.selected = 0;
                    Effect::Idle
                }
            },
            TileEvent::ItemPickup(it) => {
                let mut msg = String::from_str("You found: ");
                msg.append(it.name.as_str());
                msg.append(" - ");
                msg.append(it.description.as_str());
                self.log.push(msg);
                self.player.inventory.push(it);
                proof {
                    assert(self.log@.subrange(0, old(self).log@.len() as int) =~= old(self).log@);
                }
                Effect::PersistPlayer
            },
            TileEvent::Npc { name, dialogue } => {
                let mut msg = String::new();
                msg.append(name.as_str());
                msg.append(": \"");
                msg.append(dialogue.as_str());
                msg.append("\"");
                self.log.push(msg);
                proof {
                    assert(self.log@.subrange(0, old(self).log@.len() as int) =~= old(self).log@);
                }
                Effect::Idle
            },
            TileEvent::Rest => {
                let healed = self.player.max_hp - self.player.hp;
                self.player.heal(healed);
                if healed > 0 {
                    let mut msg = String::from_str("You rest and recover ");
                    let h = i32_to_string(healed);
                    msg.append(h.as_str());
                    msg.append(" HP. (Full health)");
                    self.log.push(msg);
                } else {
                    self.log.push(
                        String::from_str("You rest, but you're already at full health."),
                    );
                }
                proof {
                    assert(self.log@.subrange(0, old(self).log@.len() as int) =~= old(self).log@);
                }
                Effect::PersistPlayer
            },
            TileEvent::Nothing => {
                self.log.push(String::from_str("You look around but find nothing new."));
                proof {
                    assert(self.log@.subrange(0, old(self).log@.len() as int) =~= old(self).log@);
                }
                Effect::Idle
            },
        }
    }

    /// Carries out the selected explore choice: one of the tile's
    /// connections travels there (describing the new tile and rolling for
    /// an event), and the last choice looks around instead.
    pub fn execute_explore_option(&mut self, tile: &Tile) -> (e: Effect)
        requires
            old(self).wf(),
            old(self).input_bounds(),
            tile_like(*tile, old(self).tiles@[old(self).player.current_tile as int]),
        ensures
            final(self).wf(),
            !(e is BeginSession),
            old(self).selected < tile.connections@.len() ==> {
                &&& e is PersistPlayer
                &&& final(self).player.current_tile == tile.connections@[old(self).selected as int]
                &&& final(self).player == (Player {
                    current_tile: final(self).player.current_tile,
                    ..old(self).player
                })
                &&& final(self).tiles == old(self).tiles
                &&& final(self).tile_event_index == 0 || final(self).tile_event_index == old(self).tile_event_index
            },
            old(self).selected >= tile.connections@.len() ==> interact_post(
                *old(self),
                *final(self),
                e,
            ),
    {
        let cur: usize = self.player.current_tile;
        let travel_count: usize = tile.connections.len();
        if self.selected < travel_count {
            let dest: usize = tile.connections[self.selected];
            proof {
                assert(old(self).tiles@[cur as int].connections@[old(self).selected as int]
                    < old(self).tiles@.len());
            }
            self.player.current_tile = dest;
            self.selected = 0;
            self.tile_event_index = 0;
            self.describe_current_tile();
            self.trigger_tile_event();
            self.auto_save()
        } else {
            self.interact_with_tile()
        }
    }

    /// While exploring: up and down move the selection, enter carries out
    /// the selected choice, `i` opens the inventory, `q` quits.
    pub fn handle_explore(&mut self, key: InputKey) -> (e: Effect)
        requires
            old(self).wf(),
            old(self).input_bounds(),
        ensures
            final(self).wf(),
            !(e is BeginSession),
            key is Up ==> e is Idle && *final(self) == (GameState {
                selected: if old(self).selected > 0 {
                    (old(self).selected - 1) as usize
                } else {
                    0
                },
                ..*old(self)
            }),
            key is Down ==> e is Idle && *final(self) == (GameState {
                selected: if old(self).selected + 1 < old(self).tiles@[old(self).player.current_tile as int].connections@.len() + 1 {
                    (old(self).selected + 1) as usize
                } else {
                    old(self).selected
                },
                ..*old(self)
            }),
            key == (InputKey::Letter('i')) ==> e is Idle && *final(self) == (GameState {
                screen: Screen::Inventory,
                selected: 0,
                ..*old(self)
            }),
            key == (InputKey::Letter('q')) ==> e is Idle && *final(self) == (GameState {
                should_quit: true,
                ..*old(self)
            }),
    {
        let cur: usize = self.player.current_tile;
        let tile = clone_tile(&self.tiles[cur]);
        let num_options = self.explore_options_count(&tile);
        match key {
            InputKey::Up => {
                if self.selected > 0 {
                    self.selected = self.selected - 1;
                }
                Effect::Idle
            },
            InputKey::Down => {
                if self.selected < num_options - 1 {
                    self.selected = self.selected + 1;
                }
                Effect::Idle
            },
            InputKey::Enter => self.execute_explore_option(&tile),
            InputKey::Letter(c) => {
                if c == 'i' {
                    self.screen = Screen::Inventory;
                    self.selected = 0;
                } else if c == 'q' {
                    self.should_quit = true;
                }
                Effect::Idle
            },
            _ => Effect::Idle,
        }
    }
}

/// Marks one combat round's outcome pair (the fight and the player as the
/// round left them); serves as the quantifier trigger for round outcomes.
pub open spec fn round_outcome(c: CombatState, p: Player) -> bool {
    true
}

/// How winning a fight changes the player and the shared world:
/// experience is gained (with at most one level-up), loot joins the
/// inventory, a boss kill is recorded for every hunter, and the kill count
/// grows; felling both bosses wins the game.
pub open spec fn resolve_rel(
    c: CombatState,
    p0: Player,
    ws0: WorldState,
    p1: Player,
    ws1: WorldState,
) -> bool {
    let leveled = p0.exp + c.exp_reward >= p0.exp_to_next;
    let exp1 = if leveled {
        p0.exp + c.exp_reward - p0.exp_to_next
    } else {
        p0.exp + c.exp_reward
    };
    &&& p1.exp == exp1
    &&& p1.level == if leveled {
        p0.level + 1
    } else {
        p0.level as int
    }
    &&& leveled ==> p1.hp == p0.max_hp + 5 && p1.max_hp == p0.max_hp + 5 && p1.attack == p0.attack
        + 2 && p1.defense == p0.defense + 1 && p1.exp_to_next == 50 * (p0.level + 1)
    &&& !leveled ==> p1.hp == p0.hp && p1.max_hp == p0.max_hp && p1.attack == p0.attack
        && p1.defense == p0.defense && p1.exp_to_next == p0.exp_to_next
    &&& p1.name == p0.name
    &&& p1.current_tile == p0.current_tile
    &&& p1.inventory@ == if c.loot is Some {
        p0.inventory@.push(c.loot->0)
    } else {
        p0.inventory@
    }
    &&& ws1.defeated_bosses@ == if c.is_boss {
        ws0.defeated_bosses@.push(c.enemy_name)
    } else {
        ws0.defeated_bosses@
    }
    &&& ws1.global_kill_count == ws0.global_kill_count + 1
    &&& ws1.discovered_secrets == ws0.discovered_secrets
    &&& ws1.messages == ws0.messages
}

/// Whether a set of recorded boss kills wins the game: both ancient evils
/// must have fallen.
pub open spec fn game_won(defeated: Seq<String>) -> bool {
    has_string(defeated, "Cave Troll"@) && has_string(defeated, "Shrine Guardian"@)
}

/// Arithmetic room a victory needs.
pub open spec fn resolve_bounds(c: CombatState, p: Player, ws: WorldState) -> bool {
    &&& p.exp + c.exp_reward <= u32::MAX
    &&& 50 * (p.level + 1) <= u32::MAX
    &&& p.max_hp + 5 <= i32::MAX
    &&& p.attack + 2 <= i32::MAX
    &&& p.defense + 1 <= i32::MAX
    &&& ws.global_kill_count < u32::MAX
}

impl GameState {
    /// Books a won fight: experience, loot, boss tracking, the shared kill
    /// count, and — when both ancient evils have fallen — the game's
    /// victory; the caller should persist both the player and the world.
    pub fn resolve_victory(&mut self, combat: &CombatState) -> (e: Effect)
        requires
            old(self).wf(),
            resolve_bounds(*combat, old(self).player, old(self).world_state),
        ensures
            final(self).wf(),
            e is PersistAll,
            !(e is BeginSession),
            resolve_rel(
                *combat,
                old(self).player,
                old(self).world_state,
                final(self).player,
                final(self).world_state,
            ),
            combat.is_boss && game_won(final(self).world_state.defeated_bosses@) ==> final(self).screen is Victory,
            final(self).screen is Victory || final(self).screen == old(self).screen,
            !(combat.is_boss && game_won(final(self).world_state.defeated_bosses@)) ==> final(self).screen == old(self).screen,
            *final(self) == (GameState {
                player: final(self).player,
                world_state: final(self).world_state,
                screen: final(self).screen,
                log: final(self).log,
                ..*old(self)
            }),
            old(self).log@.is_prefix_of(final(self).log@),
    {
        let ghost pre = *self;
        let leveled = self.player.gain_exp(combat.exp_reward);
        let mut msg = String::from_str("You gained ");
        let e_str = crate::textfmt::u32_to_string(combat.exp_reward);
        msg.append(e_str.as_str());
        msg.append(" EXP!");
        self.log.push(msg);
        if leveled {
            let mut msg2 = String::from_str("LEVEL UP! You are now level ");
            let l_str = crate::textfmt::u32_to_string(self.player.level);
            msg2.append(l_str.as_str());
            msg2.append("!");
            self.log.push(msg2);
        }
        if let Some(loot) = &combat.loot {
            let mut msg3 = String::from_str("Loot: ");
            msg3.append(loot.name.as_str());
            msg3.append(" - ");
            msg3.append(loot.description.as_str());
            self.log.push(msg3);
            self.player.inventory.push(clone_item(loot));
        }
        if combat.is_boss {
            self.world_state.defeated_bosses.push(combat.enemy_name.clone());
            let mut msg4 = String::from_str("The ");
            msg4.append(combat.enemy_name.as_str());
            msg4.append(" has been vanquished! All hunters will know of this deed.");
            self.log.push(msg4);
            let troll = String::from_str("Cave Troll");
            let guardian = String::from_str("Shrine Guardian");
            if vec_contains_str(&self.world_state.defeated_bosses, &troll) && vec_contains_str(
                &self.world_state.defeated_bosses,
                &guardian,
            ) {
                self.screen = Screen::Victory;
                self.log.push(
                    String::from_str(
                        "With both ancient evils vanquished, peace returns to the land!",
                    ),
                );
            }
        }
        self.world_state.global_kill_count = self.world_state.global_kill_count + 1;
        proof {
            assert(self.log@.subrange(0, pre.log@.len() as int) =~= pre.log@);
        }
        Effect::PersistAll
    }

    /// During a fight: up and down pick the action, enter carries it out
    /// and resolves what follows; once the fight has ended, any key
    /// returns to exploration.
    pub fn handle_combat(&mut self, key: InputKey) -> (e: Effect)
        requires
            old(self).wf(),
            old(self).input_bounds(),
        ensures
            final(self).wf(),
            !(e is BeginSession),
            old(self).combat is None ==> *final(self) == *old(self) && (e is Idle),
            old(self).combat is Some && old(self).combat->0.phase is PlayerChoosing ==> {
                &&& key is Up ==> (e is Idle) && *final(self) == (GameState {
                    selected: if old(self).selected > 0 {
                        (old(self).selected - 1) as usize
                    } else {
                        0
                    },
                    ..*old(self)
                })
                &&& key is Down ==> (e is Idle) && *final(self) == (GameState {
                    selected: if old(self).selected + 1 < 4 {
                        (old(self).selected + 1) as usize
                    } else {
                        old(self).selected
                    },
                    ..*old(self)
                })
                &&& key is Enter ==> exists|c1: CombatState, p1: Player|
                    {
                        &&& #[trigger] round_outcome(c1, p1)
                        &&& execute_action_post(
                            CombatState {
                                selected_action: old(self).selected,
                                log: old(self).combat->0.log,
                                ..old(self).combat->0
                            },
                            old(self).player,
                            c1,
                            p1,
                        )
                        &&& c1.phase is PlayerChoosing ==> final(self).combat == Some(c1) && final(self).player == p1 && final(self).screen == old(self).screen
                        &&& c1.phase is Victory ==> final(self).combat is None && (final(self).screen is Explore || final(self).screen is Victory) && resolve_rel(
                            c1,
                            p1,
                            old(self).world_state,
                            final(self).player,
                            final(self).world_state,
                        ) && (e is PersistAll)
                        &&& c1.phase is Defeat ==> final(self).combat is None && final(self).screen is GameOver && final(self).player == p1
                        &&& c1.phase is Fled ==> final(self).combat is None && final(self).screen is Explore && final(self).player == p1 && final(self).selected
                            == 0
                    }
            },
            old(self).combat is Some && !(old(self).combat->0.phase is PlayerChoosing) ==> (
            e is Idle) && final(self).combat is None && final(self).screen is Explore && final(self).selected == 0 && final(self).player == old(self).player,
    {
        let phase: CombatPhase = match &self.combat {
            Some(c) => c.phase,
            None => {
                return Effect::Idle;
            },
        };
        match phase {
            CombatPhase::PlayerChoosing => {
                match key {
                    InputKey::Up => {
                        if self.selected > 0 {
                            self.selected = self.selected - 1;
                        }
                        Effect::Idle
                    },
                    InputKey::Down => {
                        if self.selected < ACTION_COUNT - 1 {
                            self.selected = self.selected + 1;
                        }
                        Effect::Idle
                    },
                    InputKey::Enter => {
                        let mut combat = self.combat.take().unwrap();
                        combat.selected_action = self.selected;
                        let ghost c_sel = combat;
                        let ghost p0 = self.player;
                        combat.execute_action(&mut self.player);
                        let ghost c1 = combat;
                        let ghost p1 = self.player;
                        let mut i: usize = 0;
                        while i < combat.log.len()
                            invariant
                                self.wf(),
                                combat == c1,
                                i <= combat.log@.len(),
                                *self == (GameState {
                                    log: self.log,
                                    combat: self.combat,
                                    player: self.player,
                                    selected: self.selected,
                                    ..*old(self)
                                }),
                                self.player == p1,
                                self.combat is None,
                                self.selected == old(self).selected,
                            decreases combat.log@.len() - i,
                        {
                            self.log.push(combat.log[i].clone());
                            i = i + 1;
                        }
                        match combat.phase {
                            CombatPhase::Victory => {
                                let eff = self.resolve_victory(&combat);
                                self.combat = None;
                                if !matches!(self.screen, Screen::Victory) {
                                    self.screen = Screen::Explore;
                                }
                                self.selected = 0;
                                proof {
                                    assert(round_outcome(c1, p1));
                                    assert(execute_action_post(c_sel, p0, c1, p1));
                                }
                                eff
                            },
                            CombatPhase::Defeat => {
                                self.combat = None;
                                self.screen = Screen::GameOver;
                                proof {
                                    assert(round_outcome(c1, p1));
                                    assert(execute_action_post(c_sel, p0, c1, p1));
                                }
                                Effect::Idle
                            },
                            CombatPhase::Fled => {
                                self.combat = None;
                                self.screen = Screen::Explore;
                                self.selected = 0;
                                proof {
                                    assert(round_outcome(c1, p1));
                                    assert(execute_action_post(c_sel, p0, c1, p1));
                                }
                                Effect::Idle
                            },
                            CombatPhase::PlayerChoosing => {
                                self.combat = Some(combat);
                                proof {
                                    assert(round_outcome(c1, p1));
                                    assert(execute_action_post(c_sel, p0, c1, p1));
                                }
                                Effect::Idle
                            },
                        }
                    },
                    _ => Effect::Idle,
                }
            },
            _ => {
                self.combat = None;
                self.screen = Screen::Explore;
                self.selected = 0;
                Effect::Idle
            },
        }
    }

    /// Routes a key press to the current screen's handler; each handler's
    /// own contract pins down what it does.
    pub fn handle_input(&mut self, key: InputKey) -> (e: Effect)
        requires
            old(self).wf(),
            old(self).input_bounds(),
        ensures
            final(self).wf(),
            e is BeginSession ==> old(self).screen is NameEntry,
    {
        match self.screen {
            Screen::Title => self.handle_title(key),
            Screen::NameEntry => self.handle_name_entry(key),
            Screen::Explore => self.handle_explore(key),
            Screen::Combat => self.handle_combat(key),
            Screen::Inventory => self.handle_inventory(key),
            Screen::GameOver => self.handle_game_over(key),
            Screen::Victory => self.handle_game_over(key),
        }
    }
}

/// A faithful copy of a tile event.
fn clone_event(e: &TileEvent) -> (r: TileEvent)
    ensures
        r == *e,
{
    match e {
        TileEvent::Enemy(t) => TileEvent::Enemy(
            crate::world::EnemyTemplate {
                name: t.name.clone(),
                hp: t.hp,
                damage: t.damage,
                exp_reward: t.exp_reward,
                loot: match &t.loot {
                    Some(it) => Some(clone_item(it)),
                    None => None,
                },
                is_boss: t.is_boss,
            },
        ),
        TileEvent::ItemPickup(it) => TileEvent::ItemPickup(clone_item(it)),
        TileEvent::Npc { name, dialogue } => TileEvent::Npc {
            name: name.clone(),
            dialogue: dialogue.clone(),
        },
        TileEvent::Rest => TileEvent::Rest,
        TileEvent::Nothing => TileEvent::Nothing,
    }
}

/// Field-for-field sameness of two tiles.
pub open spec fn tile_like(a: Tile, b: Tile) -> bool {
    &&& a.id == b.id
    &&& a.name == b.name
    &&& a.description == b.description
    &&& a.connections@ == b.connections@
    &&& a.events@ == b.events@
}

/// A faithful copy of a tile.
pub fn clone_tile(t: &Tile) -> (r: Tile)
    ensures
        tile_like(r, *t),
{
    let mut events: Vec<TileEvent> = Vec::new();
    let mut i: usize = 0;
    while i < t.events.len()
        invariant
            i <= t.events@.len(),
            events@ == t.events@.take(i as int),
        decreases t.events@.len() - i,
    {
        events.push(clone_event(&t.events[i]));
        proof {
            assert(events@ =~= t.events@.take(i as int + 1));
        }
        i = i + 1;
    }
    proof {
        assert(t.events@.take(t.events@.len() as int) =~= t.events@);
    }
    let mut connections: Vec<usize> = Vec::new();
    let mut j: usize = 0;
    while j < t.connections.len()
        invariant
            j <= t.connections@.len(),
            connections@ == t.connections@.take(j as int),
        decreases t.connections@.len() - j,
    {
        connections.push(t.connections[j]);
        proof {
            assert(connections@ =~= t.connections@.take(j as int + 1));
        }
        j = j + 1;
    }
    proof {
        assert(t.connections@.take(t.connections@.len() as int) =~= t.connections@);
    }
    Tile {
        id: t.id,
        name: t.name.clone(),
        description: t.description.clone(),
        connections,
        events,
    }
}

/// Turns a hunter's name into a safe file stem: letters, digits, hyphens
/// and underscores stay; every other character becomes an underscore.
pub fn sanitize_name(name: &str) -> (r: String)
    ensures
        r@.len() == name@.len(),
        forall|i: int|
            0 <= i < name@.len() ==> r@[i] == (if is_alnum_char(#[trigger] name@[i]) || name@[i]
                == '-' || name@[i] == '_' {
                name@[i]
            } else {
                '_'
            }),
{
    let chars = chars_of(name);
    let mut out: Vec<char> = Vec::new();
    let mut i: usize = 0;
    while i < chars.len()
        invariant
            chars@ == name@,
            i <= chars@.len(),
            out@.len() == i,
            forall|k: int|
                0 <= k < i ==> out@[k] == (if is_alnum_char(#[trigger] name@[k]) || name@[k] == '-'
                    || name@[k] == '_' {
                    name@[k]
                } else {
                    '_'
                }),
        decreases chars@.len() - i,
    {
        let c = chars[i];
        if is_alnum(c) || c == '-' || c == '_' {
            out.push(c);
        } else {
            out.push('_');
        }
        i = i + 1;
    }
    string_from_chars(out)
}

/// The whole application: the game state a terminal front end drives.
pub struct App {
    pub game: GameState,
}

impl App {
    /// A fresh application around a fresh session.
    pub fn new() -> (a: App)
        ensures
            a.game.wf(),
            a.game.screen is Title,
            !a.game.should_quit,
    {
        App { game: GameState::new() }
    }
}

} // verus!
