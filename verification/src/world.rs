//! The world: tiles connected into a small map, the events waiting on
//! them, and the shared state that persists across hunters.

use vstd::prelude::*;
use vstd::string::StringExecFns;

use crate::player::{Item, ItemType};

verus! {

/// A kind of enemy that can appear on a tile.
#[derive(Debug, Clone)]
pub struct EnemyTemplate {
    pub name: String,
    pub hp: i32,
    pub damage: i32,
    pub exp_reward: u32,
    pub loot: Option<Item>,
    pub is_boss: bool,
}

/// Something that can happen on a tile.
#[derive(Debug, Clone)]
pub enum TileEvent {
    Enemy(EnemyTemplate),
    ItemPickup(Item),
    Npc { name: String, dialogue: String },
    Rest,
    Nothing,
}

/// One place on the map.
#[derive(Debug, Clone)]
pub struct Tile {
    pub id: usize,
    pub name: String,
    pub description: String,
    pub connections: Vec<usize>,
    pub events: Vec<TileEvent>,
}

/// Shared world state, persisted and visible to every hunter.
#[derive(Debug, Clone)]
pub struct WorldState {
    pub defeated_bosses: Vec<String>,
    pub discovered_secrets: Vec<String>,
    pub global_kill_count: u32,
    pub messages: Vec<PlayerMessage>,
}

/// A message one hunter left on a tile for the others.
#[derive(Debug, Clone)]
pub struct PlayerMessage {
    pub author: String,
    pub text: String,
    pub tile_id: usize,
}

impl Default for WorldState {
    /// No bosses defeated, no secrets, no kills, no messages.
    fn default() -> (w: WorldState)
        ensures
            w.defeated_bosses@.len() == 0,
            w.discovered_secrets@.len() == 0,
            w.global_kill_count == 0,
            w.messages@.len() == 0,
    {
        WorldState {
            defeated_bosses: Vec::new(),
            discovered_secrets: Vec::new(),
            global_kill_count: 0,
            messages: Vec::new(),
        }
    }
}

/// A well-formed world: each tile's id is its index, and every connection
/// points at an existing tile.
pub open spec fn world_wf(tiles: Seq<Tile>) -> bool {
    &&& forall|i: int| 0 <= i < tiles.len() ==> #[trigger] tiles[i].id == i
    &&& forall|i: int, j: int|
        0 <= i < tiles.len() && 0 <= j < tiles[i].connections@.len()
            ==> #[trigger] tiles[i].connections@[j] < tiles.len()
}

fn enemy(
    name: &str,
    hp: i32,
    damage: i32,
    exp_reward: u32,
    loot: Option<Item>,
    is_boss: bool,
) -> (e: TileEvent)
    ensures
        (e is Enemy && e->Enemy_0.name@ == name@ && e->Enemy_0.hp == hp && e->Enemy_0.damage
            == damage && e->Enemy_0.exp_reward == exp_reward && e->Enemy_0.loot == loot
            && e->Enemy_0.is_boss == is_boss),
{
    TileEvent::Enemy(
        EnemyTemplate { name: String::from_str(name), hp, damage, exp_reward, loot, is_boss },
    )
}

fn item(name: &str, description: &str, item_type: ItemType, value: i32) -> (it: Item)
    ensures
        it.name@ == name@,
        it.description@ == description@,
        it.item_type == item_type,
        it.value == value,
{
    Item {
        name: String::from_str(name),
        description: String::from_str(description),
        item_type,
        value,
    }
}

/// Builds the fixed nine-tile map: a village, the forest and river around
/// it, the mine and ruins beyond, and the two boss lairs. Every connection
/// points at an existing tile, each tile's id is its index, and the two
/// bosses (the Cave Troll in the deep mine, the Shrine Guardian at the
/// hidden shrine) sit on tiles six and eight.
pub fn build_world() -> (tiles: Vec<Tile>)
    ensures
        tiles@.len() == 9,
        world_wf(tiles@),
        tiles@[0].name@ == "Village Square"@,
        tiles@[1].name@ == "Forest Path"@,
        tiles@[2].name@ == "River Crossing"@,
        tiles@[3].name@ == "Abandoned Mine"@,
        tiles@[4].name@ == "Mossy Clearing"@,
        tiles@[5].name@ == "Mountain Pass"@,
        tiles@[6].name@ == "Deep Mine"@,
        tiles@[7].name@ == "Ancient Ruins"@,
        tiles@[8].name@ == "Hidden Shrine"@,
        tiles@[0].connections@ == seq![1usize, 2usize],
        tiles@[1].connections@ == seq![0usize, 3usize, 4usize],
        tiles@[2].connections@ == seq![0usize, 5usize],
        tiles@[3].connections@ == seq![1usize, 6usize],
        tiles@[4].connections@ == seq![1usize, 7usize],
        tiles@[5].connections@ == seq![2usize, 7usize],
        tiles@[6].connections@ == seq![3usize],
        tiles@[7].connections@ == seq![4usize, 5usize, 8usize],
        tiles@[8].connections@ == seq![7usize],
        tiles@[6].events@.len() == 1 && tiles@[6].events@[0] is Enemy
            && tiles@[6].events@[0]->Enemy_0.is_boss && tiles@[6].events@[0]->Enemy_0.name@
            == "Cave Troll"@,
        tiles@[8].events@.len() == 2 && tiles@[8].events@[0] is Enemy
            && tiles@[8].events@[0]->Enemy_0.is_boss && tiles@[8].events@[0]->Enemy_0.name@
            == "Shrine Guardian"@,
{
    let mut tiles: Vec<Tile> = Vec::new();

    let mut ev0: Vec<TileEvent> = Vec::new();
    ev0.push(TileEvent::Rest);
    ev0.push(
        TileEvent::Npc {
            name: String::from_str("Elder Maren"),
            dialogue: String::from_str(
                "Welcome, hunter. Dark creatures stir in the mines to the north. Be careful out there... and bring potions.",
            ),
        },
    );
    let mut c0: Vec<usize> = Vec::new();
    c0.push(1);
    c0.push(2);
    tiles.push(
        Tile {
            id: 0,
            name: String::from_str("Village Square"),
            description: String::from_str(
                "A quiet village square with a stone well at its center. An old elder sits on a bench nearby. Paths lead north into the forest and east toward the river.",
            ),
            connections: c0,
            events: ev0,
        },
    );

    let mut ev1: Vec<TileEvent> = Vec::new();
    ev1.push(enemy("Wild Wolf", 15, 4, 15, None, false));
    ev1.push(
        TileEvent::ItemPickup(
            item("Forest Herb", "A fragrant herb. Restores 8 HP.", ItemType::Potion, 8),
        ),
    );
    let mut c1: Vec<usize> = Vec::new();
    c1.push(0);
    c1.push(3);
    c1.push(4);
    tiles.push(
        Tile {
            id: 1,
            name: String::from_str("Forest Path"),
            description: String::from_str(
                "Tall oaks tower above a narrow dirt path. Shadows shift between the trunks. The village lies south; deeper woods and the old mine entrance wait to the north.",
            ),
            connections: c1,
            events: ev1,
        },
    );

    let mut ev2: Vec<TileEvent> = Vec::new();
    ev2.push(
        TileEvent::ItemPickup(
            item("Sturdy Sword", "A solid blade wedged between the rocks.", ItemType::Weapon, 5),
        ),
    );
    ev2.push(TileEvent::Nothing);
    let mut c2: Vec<usize> = Vec::new();
    c2.push(0);
    c2.push(5);
    tiles.push(
        Tile {
            id: 2,
            name: String::from_str("River Crossing"),
            description: String::from_str(
                "A shallow ford crosses a rushing river. Smooth stones glint beneath the clear water. The village is to the west; mountain trails climb to the east.",
            ),
            connections: c2,
            events: ev2,
        },
    );

    let mut ev3: Vec<TileEvent> = Vec::new();
    ev3.push(
        enemy(
            "Goblin Scout",
            12,
            3,
            12,
            Some(item("Goblin Dagger", "A crude but sharp dagger.", ItemType::Weapon, 4)),
            false,
        ),
    );
    ev3.push(
        TileEvent::ItemPickup(
            item("Torch", "A flickering torch. Might be useful.", ItemType::Misc, 0),
        ),
    );
    let mut c3: Vec<usize> = Vec::new();
    c3.push(1);
    c3.push(6);
    tiles.push(
        Tile {
            id: 3,
            name: String::from_str("Abandoned Mine"),
            description: String::from_str(
                "Rotting timber frames a dark tunnel mouth. The air is damp and smells of iron. Deeper shafts branch off into blackness. The forest path lies behind you.",
            ),
            connections: c3,
            events: ev3,
        },
    );

    let mut ev4: Vec<TileEvent> = Vec::new();
    ev4.push(TileEvent::Rest);
    ev4.push(
        enemy(
            "Giant Spider",
            18,
            5,
            20,
            Some(
                item(
                    "Spider Silk",
                    "Tough, shimmering silk. Could fetch a price.",
                    ItemType::Misc,
                    0,
                ),
            ),
            false,
        ),
    );
    let mut c4: Vec<usize> = Vec::new();
    c4.push(1);
    c4.push(7);
    tiles.push(
        Tile {
            id: 4,
            name: String::from_str("Mossy Clearing"),
            description: String::from_str(
                "A sun-dappled clearing carpeted in soft moss. Birdsong fills the air. A crumbling stone arch stands at the far end, half-swallowed by ivy.",
            ),
            connections: c4,
            events: ev4,
        },
    );

    let mut ev5: Vec<TileEvent> = Vec::new();
    ev5.push(
        enemy(
            "Mountain Bandit",
            20,
            6,
            25,
            Some(item("Health Potion", "A red vial. Restores 15 HP.", ItemType::Potion, 15)),
            false,
        ),
    );
    ev5.push(TileEvent::Nothing);
    let mut c5: Vec<usize> = Vec::new();
    c5.push(2);
    c5.push(7);
    tiles.push(
        Tile {
            id: 5,
            name: String::from_str("Mountain Pass"),
            description: String::from_str(
                "A narrow trail hugs the mountainside. Wind howls through gaps in the rock. Far below, the river glitters. The ancient ruins lie ahead.",
            ),
            connections: c5,
            events: ev5,
        },
    );

    let mut ev6: Vec<TileEvent> = Vec::new();
    ev6.push(
        enemy(
            "Cave Troll",
            50,
            10,
            100,
            Some(
                item(
                    "Troll's Greataxe",
                    "A massive axe pulsing with dark energy.",
                    ItemType::Weapon,
                    10,
                ),
            ),
            true,
        ),
    );
    let mut c6: Vec<usize> = Vec::new();
    c6.push(3);
    tiles.push(
        Tile {
            id: 6,
            name: String::from_str("Deep Mine"),
            description: String::from_str(
                "The tunnel opens into a vast underground cavern. Stalactites drip overhead. Something large shifts in the darkness ahead, its eyes reflecting your torchlight.",
            ),
            connections: c6,
            events: ev6,
        },
    );

    let mut ev7: Vec<TileEvent> = Vec::new();
    ev7.push(
        enemy(
            "Skeleton Warrior",
            22,
            7,
            30,
            Some(
                item(
                    "Bone Shield",
                    "A shield fashioned from ancient bones. +3 def.",
                    ItemType::Misc,
                    3,
                ),
            ),
            false,
        ),
    );
    ev7.push(TileEvent::Nothing);
    let mut c7: Vec<usize> = Vec::new();
    c7.push(4);
    c7.push(5);
    c7.push(8);
    tiles.push(
        Tile {
            id: 7,
            name: String::from_str("Ancient Ruins"),
            description: String::from_str(
                "Weathered pillars rise from overgrown flagstones. Faded carvings depict hunters battling monstrous creatures. A hidden shrine glows faintly to the north.",
            ),
            connections: c7,
            events: ev7,
        },
    );

    let mut ev8: Vec<TileEvent> = Vec::new();
    ev8.push(
        enemy(
            "Shrine Guardian",
            60,
            12,
            150,
            Some(item("Guardian's Amulet", "A radiant amulet. You feel its power.", ItemType::Misc, 0)),
            true,
        ),
    );
    ev8.push(TileEvent::Rest);
    let mut c8: Vec<usize> = Vec::new();
    c8.push(7);
    tiles.push(
        Tile {
            id: 8,
            name: String::from_str("Hidden Shrine"),
            description: String::from_str(
                "A sacred chamber bathed in pale blue light. An altar stands at the center, and the air hums with old magic. But a guardian still watches over this place...",
            ),
            connections: c8,
            events: ev8,
        },
    );

    proof {
        assert(tiles@[0].connections@ =~= seq![1usize, 2usize]);
        assert(tiles@[1].connections@ =~= seq![0usize, 3usize, 4usize]);
        assert(tiles@[2].connections@ =~= seq![0usize, 5usize]);
        assert(tiles@[3].connections@ =~= seq![1usize, 6usize]);
        assert(tiles@[4].connections@ =~= seq![1usize, 7usize]);
        assert(tiles@[5].connections@ =~= seq![2usize, 7usize]);
        assert(tiles@[6].connections@ =~= seq![3usize]);
        assert(tiles@[7].connections@ =~= seq![4usize, 5usize, 8usize]);
        assert(tiles@[8].connections@ =~= seq![7usize]);
    }
    tiles
}

} // verus!
