use hunter::combat::{CombatAction, CombatPhase, CombatState};
use hunter::dice::{Dice, DiceResult};
use hunter::game::{sanitize_name, Effect, GameState, InputKey, Screen};
use hunter::player::{Item, ItemType, Player};
use hunter::textfmt::{i32_to_string, trim_chars, u32_to_string};
use hunter::world::{build_world, EnemyTemplate, TileEvent};

#[test]
fn decimal_strings() {
    assert_eq!(u32_to_string(0), "0");
    assert_eq!(u32_to_string(255), "255");
    assert_eq!(u32_to_string(1000), "1000");
    assert_eq!(i32_to_string(-42), "-42");
    assert_eq!(i32_to_string(7), "7");
}

#[test]
fn trim_strips_spaces() {
    let v: Vec<char> = "  Ann the Hunter ".chars().collect();
    let t: String = trim_chars(&v).into_iter().collect();
    assert_eq!(t, "Ann the Hunter");
    let blank: Vec<char> = "   ".chars().collect();
    assert!(trim_chars(&blank).is_empty());
}

#[test]
fn sanitize_keeps_safe_characters() {
    assert_eq!(sanitize_name("ab c-d_e!"), "ab_c-d_e_");
    assert_eq!(sanitize_name("Ann"), "Ann");
    assert_eq!(sanitize_name("../evil"), "___evil");
}

#[test]
fn new_player_loadout() {
    let p = Player::new(String::from("Ann"));
    assert_eq!(p.name, "Ann");
    assert_eq!((p.hp, p.max_hp, p.level, p.exp, p.exp_to_next), (30, 30, 1, 0, 50));
    assert_eq!((p.attack, p.defense), (5, 2));
    assert_eq!(p.inventory.len(), 2);
    assert_eq!(p.inventory[0].name, "Rusty Sword");
    assert_eq!(p.inventory[1].name, "Small Potion");
    assert_eq!(p.current_tile, 0);
}

#[test]
fn heal_caps_at_max() {
    let mut p = Player::new(String::from("A"));
    p.hp = 10;
    p.heal(5);
    assert_eq!(p.hp, 15);
    p.heal(100);
    assert_eq!(p.hp, 30);
}

#[test]
fn damage_reduced_but_at_least_one() {
    let mut p = Player::new(String::from("A"));
    p.take_damage(10);
    assert_eq!(p.hp, 22); // 10 - 2 defense = 8
    p.take_damage(1);
    assert_eq!(p.hp, 21); // below defense still costs 1
    p.take_damage(1000);
    assert_eq!(p.hp, 0); // never below zero
}

#[test]
fn gain_exp_levels_up_once() {
    let mut p = Player::new(String::from("A"));
    assert!(!p.gain_exp(49));
    assert_eq!((p.level, p.exp), (1, 49));
    assert!(p.gain_exp(1));
    assert_eq!((p.level, p.exp, p.exp_to_next), (2, 0, 100));
    assert_eq!((p.hp, p.max_hp, p.attack, p.defense), (35, 35, 7, 3));
}

#[test]
fn best_weapon_picks_largest() {
    let mut p = Player::new(String::from("A"));
    assert_eq!(p.best_weapon_damage(), 3);
    p.inventory.push(Item {
        name: String::from("Axe"),
        description: String::from("Heavy."),
        item_type: ItemType::Weapon,
        value: 9,
    });
    assert_eq!(p.best_weapon_damage(), 9);
    assert_eq!(p.total_attack(), 14);
    p.inventory.clear();
    assert_eq!(p.best_weapon_damage(), 0);
}

#[test]
fn potions_counted_and_drunk_in_order() {
    let mut p = Player::new(String::from("A"));
    assert_eq!(p.potion_count(), 1);
    p.hp = 10;
    assert_eq!(p.use_potion(), Some(10));
    assert_eq!(p.hp, 20);
    assert_eq!(p.potion_count(), 0);
    assert_eq!(p.use_potion(), None);
    assert_eq!(p.hp, 20);
}

#[test]
fn dice_describe_forms() {
    assert_eq!(Dice::new(2, 6, 3).describe(), "2d6+3");
    assert_eq!(Dice::new(1, 20, 0).describe(), "1d20");
    assert_eq!(Dice::new(3, 4, -2).describe(), "3d4-2");
}

#[test]
fn dice_roll_in_range() {
    let d = Dice::new(2, 6, 1);
    for _ in 0..50 {
        let r = d.roll();
        assert_eq!(r.rolls.len(), 2);
        for &x in &r.rolls {
            assert!((1..=6).contains(&x));
        }
        let sum: i32 = r.rolls.iter().map(|&x| x as i32).sum::<i32>() + 1;
        assert_eq!(r.total, sum.max(1));
    }
}

#[test]
fn roll_description_shape() {
    let r = DiceResult {
        total: 9,
        rolls: vec![4, 2],
        dice: Dice::new(2, 6, 3),
    };
    assert_eq!(r.describe(), "2d6+3 [4+2] = 9");
}

#[test]
fn world_layout() {
    let tiles = build_world();
    assert_eq!(tiles.len(), 9);
    for (i, t) in tiles.iter().enumerate() {
        assert_eq!(t.id, i);
        for &c in &t.connections {
            assert!(c < tiles.len());
        }
    }
    assert_eq!(tiles[0].name, "Village Square");
    assert_eq!(tiles[0].connections, vec![1, 2]);
    match &tiles[6].events[0] {
        TileEvent::Enemy(t) => {
            assert_eq!(t.name, "Cave Troll");
            assert!(t.is_boss);
            assert_eq!(t.hp, 50);
        }
        _ => panic!("the deep mine should hold its boss"),
    }
    match &tiles[8].events[0] {
        TileEvent::Enemy(t) => {
            assert_eq!(t.name, "Shrine Guardian");
            assert!(t.is_boss);
        }
        _ => panic!("the shrine should hold its guardian"),
    }
}

fn wolf() -> EnemyTemplate {
    EnemyTemplate {
        name: String::from("Wild Wolf"),
        hp: 15,
        damage: 4,
        exp_reward: 15,
        loot: None,
        is_boss: false,
    }
}

#[test]
fn combat_from_template() {
    let c = CombatState::from_template(&wolf());
    assert_eq!(c.enemy_name, "Wild Wolf");
    assert_eq!((c.enemy_hp, c.enemy_max_hp), (15, 15));
    assert_eq!(
        (c.enemy_damage_dice.count, c.enemy_damage_dice.sides, c.enemy_damage_dice.bonus),
        (1, 4, 4)
    );
    assert!(matches!(c.phase, CombatPhase::PlayerChoosing));
    assert_eq!(c.selected_action, 0);
    assert!(!c.defending);
    assert_eq!(c.log, vec![String::from("A Wild Wolf appears!")]);
}

#[test]
fn action_labels() {
    assert_eq!(CombatAction::Attack.label(), "Attack");
    assert_eq!(CombatAction::Defend.label(), "Defend");
    assert_eq!(CombatAction::UsePotion.label(), "Use Potion");
    assert_eq!(CombatAction::Flee.label(), "Flee");
    assert!(matches!(CombatAction::from_index(1), CombatAction::Defend));
}

#[test]
fn defend_halves_and_enemy_strikes() {
    let mut c = CombatState::from_template(&wolf());
    let mut p = Player::new(String::from("A"));
    c.selected_action = 1; // defend
    c.execute_action(&mut p);
    assert!(c.defending);
    assert!(p.hp < 30); // the wolf always deals at least one point
    assert!(p.hp >= 30 - 8); // 1d4+4 at most 8, halved and reduced
    assert!(matches!(c.phase, CombatPhase::PlayerChoosing) || !p.is_alive());
}

#[test]
fn potion_action_without_potion_logs_it() {
    let mut c = CombatState::from_template(&wolf());
    let mut p = Player::new(String::from("A"));
    p.inventory.clear();
    c.selected_action = 2;
    c.execute_action(&mut p);
    assert!(c.log.iter().any(|l| l == "You have no potions!"));
}

#[test]
fn flee_ends_or_continues() {
    for _ in 0..20 {
        let mut c = CombatState::from_template(&wolf());
        let mut p = Player::new(String::from("A"));
        c.selected_action = 3;
        c.execute_action(&mut p);
        match c.phase {
            CombatPhase::Fled => assert_eq!(p.hp, 30),
            CombatPhase::PlayerChoosing => assert!(p.hp < 30),
            CombatPhase::Defeat => assert_eq!(p.hp, 0),
            CombatPhase::Victory => panic!("fleeing cannot defeat the enemy"),
        }
    }
}

#[test]
fn attack_eventually_wins() {
    // A wolf has 15 hp and the fresh hunter deals at least 9 per hit; two
    // hits always finish it.
    let mut c = CombatState::from_template(&wolf());
    let mut p = Player::new(String::from("A"));
    let mut rounds = 0;
    while matches!(c.phase, CombatPhase::PlayerChoosing) && rounds < 10 {
        c.selected_action = 0;
        c.execute_action(&mut p);
        rounds += 1;
    }
    assert!(matches!(c.phase, CombatPhase::Victory) || !p.is_alive());
}

#[test]
fn fresh_game_state() {
    let g = GameState::new();
    assert!(matches!(g.screen, Screen::Title));
    assert_eq!(g.tiles.len(), 9);
    assert_eq!(g.player.current_tile, 0);
    assert!(g.combat.is_none());
    assert_eq!(g.log, vec![String::from("Welcome to Hunter Game.")]);
    assert!(!g.should_quit);
}

#[test]
fn title_to_name_entry_and_typing() {
    let mut g = GameState::new();
    g.handle_input(InputKey::Enter);
    assert!(matches!(g.screen, Screen::NameEntry));
    g.handle_input(InputKey::Letter('A'));
    g.handle_input(InputKey::Letter('n'));
    g.handle_input(InputKey::Letter('x'));
    g.handle_input(InputKey::Backspace);
    g.handle_input(InputKey::Letter('n'));
    let e = g.handle_input(InputKey::Enter);
    match e {
        Effect::BeginSession(name) => assert_eq!(name, "Ann"),
        _ => panic!("a typed name should begin a session"),
    }
}

#[test]
fn blank_name_is_rejected() {
    let mut g = GameState::new();
    g.handle_input(InputKey::Enter);
    g.handle_input(InputKey::Letter(' '));
    let e = g.handle_input(InputKey::Enter);
    assert!(matches!(e, Effect::Idle));
    assert!(matches!(g.screen, Screen::NameEntry));
}

#[test]
fn start_game_fresh_hunter() {
    let mut g = GameState::new();
    g.start_game(String::from("Ann"), None, None);
    assert!(matches!(g.screen, Screen::Explore));
    assert_eq!(g.player.name, "Ann");
    assert_eq!(g.log[0], "A new hunter rises: Ann!");
    assert_eq!(g.log[1], "-- Village Square --");
}

#[test]
fn start_game_with_save() {
    let mut g = GameState::new();
    let mut saved = Player::new(String::from("Bea"));
    saved.current_tile = 2;
    saved.level = 3;
    g.start_game(String::from("Bea"), Some(saved), None);
    assert_eq!(g.player.level, 3);
    assert_eq!(g.player.current_tile, 2);
    assert_eq!(g.log[0], "Welcome back, Bea!");
    assert_eq!(g.log[1], "-- River Crossing --");
}

#[test]
fn inventory_screen_round_trip() {
    let mut g = GameState::new();
    g.start_game(String::from("Ann"), None, None);
    g.handle_input(InputKey::Letter('i'));
    assert!(matches!(g.screen, Screen::Inventory));
    g.handle_input(InputKey::Down);
    assert_eq!(g.selected, 1);
    g.handle_input(InputKey::Escape);
    assert!(matches!(g.screen, Screen::Explore));
    assert_eq!(g.selected, 0);
}

#[test]
fn looking_around_village_rests_and_talks() {
    let mut g = GameState::new();
    g.start_game(String::from("Ann"), None, None);
    g.player.hp = 12;
    // village events: a rest spot, then the elder
    let e = g.interact_with_tile();
    assert!(matches!(e, Effect::PersistPlayer));
    assert_eq!(g.player.hp, 30);
    let logged = g.log.len();
    let e2 = g.interact_with_tile();
    assert!(matches!(e2, Effect::Idle));
    assert_eq!(g.log.len(), logged + 1);
    assert!(g.log[logged].starts_with("Elder Maren: "));
}

#[test]
fn travel_moves_the_hunter() {
    let mut g = GameState::new();
    g.start_game(String::from("Ann"), None, None);
    g.selected = 0; // first connection of the village square: the forest
    let tile = hunter::game::clone_tile(g.current_tile());
    let e = g.execute_explore_option(&tile);
    assert!(matches!(e, Effect::PersistPlayer));
    assert_eq!(g.player.current_tile, 1);
    assert!(matches!(g.screen, Screen::Explore) || matches!(g.screen, Screen::Combat));
}

#[test]
fn game_over_restart_keeps_name() {
    let mut g = GameState::new();
    g.start_game(String::from("Ann"), None, None);
    g.player.hp = 0;
    g.screen = Screen::GameOver;
    let e = g.handle_input(InputKey::Enter);
    assert!(matches!(e, Effect::PersistPlayer));
    assert!(matches!(g.screen, Screen::Explore));
    assert_eq!(g.player.name, "Ann");
    assert_eq!(g.player.hp, 30);
}

#[test]
fn resolve_victory_books_everything() {
    let mut g = GameState::new();
    g.start_game(String::from("Ann"), None, None);
    let troll = EnemyTemplate {
        name: String::from("Cave Troll"),
        hp: 50,
        damage: 10,
        exp_reward: 100,
        loot: Some(Item {
            name: String::from("Troll's Greataxe"),
            description: String::from("A massive axe pulsing with dark energy."),
            item_type: ItemType::Weapon,
            value: 10,
        }),
        is_boss: true,
    };
    let c = CombatState::from_template(&troll);
    let e = g.resolve_victory(&c);
    assert!(matches!(e, Effect::PersistAll));
    assert!(g.player.level > 1); // 100 exp beats the first threshold
    assert_eq!(g.world_state.global_kill_count, 1);
    assert_eq!(g.world_state.defeated_bosses, vec![String::from("Cave Troll")]);
    assert!(g.player.inventory.iter().any(|i| i.name == "Troll's Greataxe"));
    assert!(!matches!(g.screen, Screen::Victory)); // one boss is not enough
}

#[test]
fn felling_both_bosses_wins() {
    let mut g = GameState::new();
    g.start_game(String::from("Ann"), None, None);
    g.world_state
        .defeated_bosses
        .push(String::from("Shrine Guardian"));
    let troll = EnemyTemplate {
        name: String::from("Cave Troll"),
        hp: 50,
        damage: 10,
        exp_reward: 100,
        loot: None,
        is_boss: true,
    };
    let c = CombatState::from_template(&troll);
    g.resolve_victory(&c);
    assert!(matches!(g.screen, Screen::Victory));
}

#[test]
fn app_starts_on_title() {
    let a = hunter::game::App::new();
    assert!(matches!(a.game.screen, Screen::Title));
}

#[test]
fn location_art_error_names_built_path() {
    let r = hunter::render::show_location("riverside");
    match r {
        Err(e) => assert_eq!(e.path, "assets/images/locations/riverside.png"),
        Ok(_) => panic!("there is no riverside image here"),
    }
}

#[test]
fn forest_fight_through_the_screens() {
    let mut g = GameState::new();
    g.start_game(String::from("Ann"), None, None);
    g.player.current_tile = 1; // forest path: first event is the wolf
    g.tile_event_index = 0;
    g.interact_with_tile();
    assert!(matches!(g.screen, Screen::Combat));
    assert!(g.combat.is_some());
    let mut guard = 0;
    while matches!(g.screen, Screen::Combat) && guard < 30 {
        let e = g.handle_input(InputKey::Enter); // attack
        match e {
            Effect::BeginSession(_) => panic!("combat never begins a session"),
            _ => {}
        }
        guard += 1;
    }
    assert!(matches!(g.screen, Screen::Explore) || matches!(g.screen, Screen::GameOver));
}
