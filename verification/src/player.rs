//! The player: hit points, experience and levels, and an inventory of
//! items (weapons, potions, keys and miscellany).

use vstd::prelude::*;
use vstd::string::StringExecFns;

verus! {

/// What kind of thing an item is.
#[derive(Debug, Clone, Copy, PartialEq, Eq, Structural)]
pub enum ItemType {
    Weapon,
    Potion,
    Key,
    Misc,
}

/// One inventory item.
#[derive(Debug, Clone)]
pub struct Item {
    pub name: String,
    pub description: String,
    pub item_type: ItemType,
    /// Context-dependent value: heal amount for potions, damage for weapons.
    pub value: i32,
}

/// The player character.
#[derive(Debug, Clone)]
pub struct Player {
    pub name: String,
    pub hp: i32,
    pub max_hp: i32,
    pub level: u32,
    pub exp: u32,
    pub exp_to_next: u32,
    pub attack: i32,
    pub defense: i32,
    pub inventory: Vec<Item>,
    pub current_tile: usize,
}

/// The damage value of the best weapon in an inventory: the largest value
/// among items of weapon type, or zero when there is no weapon.
pub open spec fn best_weapon_spec(inv: Seq<Item>) -> int
    decreases inv.len(),
{
    if inv.len() == 0 {
        0
    } else {
        let rest = best_weapon_spec(inv.drop_last());
        let it = inv.last();
        if it.item_type is Weapon && (!has_weapon(inv.drop_last()) || it.value as int > rest) {
            it.value as int
        } else {
            rest
        }
    }
}

/// Whether an inventory holds any weapon.
pub open spec fn has_weapon(inv: Seq<Item>) -> bool {
    exists|i: int| 0 <= i < inv.len() && inv[i].item_type is Weapon
}

/// The number of potions in an inventory.
pub open spec fn potion_count_spec(inv: Seq<Item>) -> int
    decreases inv.len(),
{
    if inv.len() == 0 {
        0
    } else {
        potion_count_spec(inv.drop_last()) + if inv.last().item_type is Potion {
            1int
        } else {
            0int
        }
    }
}

/// The index of the first potion in an inventory, if any.
pub open spec fn first_potion_index(inv: Seq<Item>) -> int {
    choose|i: int|
        0 <= i < inv.len() && inv[i].item_type is Potion && forall|j: int|
            0 <= j < i ==> !(inv[j].item_type is Potion)
}

/// An exact copy of an item.
pub fn clone_item(it: &Item) -> (r: Item)
    ensures
        r == *it,
{
    Item {
        name: it.name.clone(),
        description: it.description.clone(),
        item_type: it.item_type,
        value: it.value,
    }
}

/// Whether an inventory holds any potion.
pub open spec fn has_potion(inv: Seq<Item>) -> bool {
    exists|i: int| 0 <= i < inv.len() && inv[i].item_type is Potion
}

impl Player {
    /// A fresh level-one hunter with a rusty sword and one small potion.
    pub fn new(name: String) -> (p: Player)
        ensures
            p.name == name,
            p.hp == 30,
            p.max_hp == 30,
            p.level == 1,
            p.exp == 0,
            p.exp_to_next == 50,
            p.attack == 5,
            p.defense == 2,
            p.inventory@.len() == 2,
            p.inventory@[0].item_type is Weapon,
            p.inventory@[0].value == 3,
            p.inventory@[0].name@ == "Rusty Sword"@,
            p.inventory@[1].item_type is Potion,
            p.inventory@[1].value == 10,
            p.inventory@[1].name@ == "Small Potion"@,
            p.current_tile == 0,
    {
        let mut inventory: Vec<Item> = Vec::new();
        inventory.push(
            Item {
                name: String::from_str("Rusty Sword"),
                description: String::from_str("A worn but serviceable blade."),
                item_type: ItemType::Weapon,
                value: 3,
            },
        );
        inventory.push(
            Item {
                name: String::from_str("Small Potion"),
                description: String::from_str("Restores 10 HP."),
                item_type: ItemType::Potion,
                value: 10,
            },
        );
        Player {
            name,
            hp: 30,
            max_hp: 30,
            level: 1,
            exp: 0,
            exp_to_next: 50,
            attack: 5,
            defense: 2,
            inventory,
            current_tile: 0,
        }
    }

    /// Whether the player still stands.
    pub fn is_alive(&self) -> (r: bool)
        ensures
            r == (self.hp > 0),
    {
        self.hp > 0
    }

    /// Restores hit points, never past the maximum.
    pub fn heal(&mut self, amount: i32)
        requires
            i32::MIN <= old(self).hp + amount,
            old(self).hp + amount <= i32::MAX,
        ensures
            final(self).hp == if old(self).hp + amount < old(self).max_hp {
                old(self).hp + amount
            } else {
                old(self).max_hp as int
            },
            *final(self) == (Player { hp: final(self).hp, ..*old(self) }),
    {
        let healed = self.hp + amount;
        self.hp = if healed < self.max_hp {
            healed
        } else {
            self.max_hp
        };
    }

    /// Takes a hit: damage is reduced by defense but always at least one,
    /// and hit points never fall below zero.
    pub fn take_damage(&mut self, amount: i32)
        requires
            i32::MIN <= amount - old(self).defense,
            amount - old(self).defense <= i32::MAX,
            i32::MIN <= old(self).hp - (amount - old(self).defense),
            i32::MIN <= old(self).hp - 1,
        ensures
            final(self).hp == damage_result(old(self).hp as int, old(self).defense as int, amount as int),
            *final(self) == (Player { hp: final(self).hp, ..*old(self) }),
    {
        let mut reduced = amount - self.defense;
        if reduced < 1 {
            reduced = 1;
        }
        let left = self.hp - reduced;
        self.hp = if left > 0 {
            left
        } else {
            0
        };
    }

    /// Gains experience; on reaching the threshold the player levels up
    /// once and the function reports it.
    pub fn gain_exp(&mut self, amount: u32) -> (leveled: bool)
        requires
            old(self).exp + amount <= u32::MAX,
            50 * (old(self).level + 1) <= u32::MAX,
            old(self).max_hp + 5 <= i32::MAX,
            old(self).attack + 2 <= i32::MAX,
            old(self).defense + 1 <= i32::MAX,
        ensures
            leveled == (old(self).exp + amount >= old(self).exp_to_next),
            !leveled ==> *final(self) == (Player {
                exp: (old(self).exp + amount) as u32,
                ..*old(self)
            }),
            leveled ==> *final(self) == (Player {
                exp: (old(self).exp + amount - old(self).exp_to_next) as u32,
                level: (old(self).level + 1) as u32,
                exp_to_next: (50 * (old(self).level + 1)) as u32,
                max_hp: (old(self).max_hp + 5) as i32,
                hp: (old(self).max_hp + 5) as i32,
                attack: (old(self).attack + 2) as i32,
                defense: (old(self).defense + 1) as i32,
                ..*old(self)
            }),
    {
        self.exp = self.exp + amount;
        if self.exp >= self.exp_to_next {
            self.level_up();
            true
        } else {
            false
        }
    }

    fn level_up(&mut self)
        requires
            old(self).exp >= old(self).exp_to_next,
            50 * (old(self).level + 1) <= u32::MAX,
            old(self).max_hp + 5 <= i32::MAX,
            old(self).attack + 2 <= i32::MAX,
            old(self).defense + 1 <= i32::MAX,
        ensures
            *final(self) == (Player {
                exp: (old(self).exp - old(self).exp_to_next) as u32,
                level: (old(self).level + 1) as u32,
                exp_to_next: (50 * (old(self).level + 1)) as u32,
                max_hp: (old(self).max_hp + 5) as i32,
                hp: (old(self).max_hp + 5) as i32,
                attack: (old(self).attack + 2) as i32,
                defense: (old(self).defense + 1) as i32,
                ..*old(self)
            }),
    {
        self.exp = self.exp - self.exp_to_next;
        self.level = self.level + 1;
        self.exp_to_next = 50 * self.level;
        self.max_hp = self.max_hp + 5;
        self.hp = self.max_hp;
        self.attack = self.attack + 2;
        self.defense = self.defense + 1;
    }

    /// The damage value of the best weapon carried, or zero without one.
    pub fn best_weapon_damage(&self) -> (r: i32)
        ensures
            r as int == best_weapon_spec(self.inventory@),
    {
        let mut best: i32 = 0;
        let mut found: bool = false;
        let mut i: usize = 0;
        while i < self.inventory.len()
            invariant
                i <= self.inventory@.len(),
                found == has_weapon(self.inventory@.take(i as int)),
                best as int == best_weapon_spec(self.inventory@.take(i as int)),
            decreases self.inventory@.len() - i,
        {
            let it = &self.inventory[i];
            proof {
                assert(self.inventory@.take(i as int + 1).drop_last() =~= self.inventory@.take(
                    i as int,
                ));
                assert(self.inventory@.take(i as int + 1).last() == self.inventory@[i as int]);
            }
            if matches!(it.item_type, ItemType::Weapon) {
                if !found || it.value > best {
                    best = it.value;
                }
                found = true;
                proof {
                    assert(self.inventory@.take(i as int + 1)[i as int].item_type is Weapon);
                }
            }
            proof {
                assert(has_weapon(self.inventory@.take(i as int + 1)) == (has_weapon(
                    self.inventory@.take(i as int),
                ) || self.inventory@[i as int].item_type is Weapon)) by {
                    let t = self.inventory@.take(i as int + 1);
                    if has_weapon(t) {
                        let k = choose|k: int| 0 <= k < t.len() && t[k].item_type is Weapon;
                        if k < i {
                            assert(self.inventory@.take(i as int)[k].item_type is Weapon);
                        }
                    }
                    if has_weapon(self.inventory@.take(i as int)) {
                        let k = choose|k: int|
                            0 <= k < i && self.inventory@.take(i as int)[k].item_type is Weapon;
                        assert(t[k].item_type is Weapon);
                    }
                }
            }
            i = i + 1;
        }
        proof {
            assert(self.inventory@.take(self.inventory@.len() as int) =~= self.inventory@);
        }
        best
    }

    /// Base attack plus the best weapon's damage.
    pub fn total_attack(&self) -> (r: i32)
        requires
            i32::MIN <= self.attack + best_weapon_spec(self.inventory@) <= i32::MAX,
        ensures
            r as int == self.attack + best_weapon_spec(self.inventory@),
    {
        self.attack + self.best_weapon_damage()
    }

    /// How many potions the player carries.
    pub fn potion_count(&self) -> (r: usize)
        ensures
            r as int == potion_count_spec(self.inventory@),
    {
        let mut count: usize = 0;
        let mut i: usize = 0;
        while i < self.inventory.len()
            invariant
                i <= self.inventory@.len(),
                count as int == potion_count_spec(self.inventory@.take(i as int)),
                count <= i,
            decreases self.inventory@.len() - i,
        {
            proof {
                assert(self.inventory@.take(i as int + 1).drop_last() =~= self.inventory@.take(
                    i as int,
                ));
            }
            if matches!(self.inventory[i].item_type, ItemType::Potion) {
                count = count + 1;
            }
            i = i + 1;
        }
        proof {
            assert(self.inventory@.take(self.inventory@.len() as int) =~= self.inventory@);
        }
        count
    }

    /// Drinks the first potion carried, if any: it leaves the inventory
    /// and its value is restored as hit points; returns that value.
    pub fn use_potion(&mut self) -> (r: Option<i32>)
        requires
            has_potion(old(self).inventory@) ==> i32::MIN <= old(self).hp + old(
                self,
            ).inventory@[first_potion_index(old(self).inventory@)].value <= i32::MAX,
        ensures
            r is Some <==> has_potion(old(self).inventory@),
            r is Some ==> {
                let idx = first_potion_index(old(self).inventory@);
                &&& r->0 == old(self).inventory@[idx].value
                &&& final(self).inventory@ == old(self).inventory@.remove(idx)
                &&& final(self).hp == if old(self).hp + r->0 < old(self).max_hp {
                    old(self).hp + r->0
                } else {
                    old(self).max_hp as int
                }
                &&& *final(self) == (Player {
                    hp: final(self).hp,
                    inventory: final(self).inventory,
                    ..*old(self)
                })
            },
            r is None ==> *final(self) == *old(self),
    {
        let ghost p0 = *self;
        let ghost inv0 = self.inventory@;
        let mut i: usize = 0;
        while i < self.inventory.len()
            invariant
                *self == p0,
                p0 == *old(self),
                inv0 == p0.inventory@,
                has_potion(inv0) ==> i32::MIN <= p0.hp + inv0[first_potion_index(inv0)].value
                    <= i32::MAX,
                i <= inv0.len(),
                forall|j: int| 0 <= j < i ==> !(inv0[j].item_type is Potion),
            decreases inv0.len() - i,
        {
            if matches!(self.inventory[i].item_type, ItemType::Potion) {
                proof {
                    assert(inv0[i as int].item_type is Potion);
                    assert(i as int == first_potion_index(inv0)) by {
                        let c = first_potion_index(inv0);
                        assert(0 <= c < inv0.len() && inv0[c].item_type is Potion && forall|j: int|
                            0 <= j < c ==> !(inv0[j].item_type is Potion)) by {
                            assert(0 <= (i as int) && (i as int) < inv0.len() && inv0[i as int].item_type is Potion
                                && forall|j: int| 0 <= j < i ==> !(inv0[j].item_type is Potion));
                        }
                    }
                }
                let value = self.inventory[i].value;
                proof {
                    assert(has_potion(inv0));
                    assert(value == inv0[first_potion_index(inv0)].value);
                    assert(i32::MIN <= p0.hp + value <= i32::MAX);
                }
                self.inventory.remove(i);
                self.heal(value);
                return Some(value);
            }
            i = i + 1;
        }
        None
    }
}

/// The value of the first potion in an inventory, if one is carried.
pub fn first_potion_value(inv: &Vec<Item>) -> (r: Option<i32>)
    ensures
        r is Some <==> has_potion(inv@),
        r is Some ==> r->0 == inv@[first_potion_index(inv@)].value,
{
    let mut i: usize = 0;
    while i < inv.len()
        invariant
            i <= inv@.len(),
            forall|j: int| 0 <= j < i ==> !(inv@[j].item_type is Potion),
        decreases inv@.len() - i,
    {
        if matches!(inv[i].item_type, ItemType::Potion) {
            proof {
                assert(inv@[i as int].item_type is Potion);
                assert(i as int == first_potion_index(inv@)) by {
                    assert(0 <= (i as int) && (i as int) < inv@.len()
                        && inv@[i as int].item_type is Potion && forall|j: int|
                        0 <= j < i ==> !(inv@[j].item_type is Potion));
                }
            }
            return Some(inv[i].value);
        }
        i = i + 1;
    }
    None
}

/// Hit points after one hit: the damage is reduced by defense but is at
/// least one, and the result never falls below zero.
pub open spec fn damage_result(hp: int, defense: int, amount: int) -> int {
    let reduced = if amount - defense < 1 {
        1
    } else {
        amount - defense
    };
    if hp - reduced > 0 {
        hp - reduced
    } else {
        0
    }
}

} // verus!
