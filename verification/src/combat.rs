//! Turn-based combat: the player picks an action, it resolves against the
//! enemy, and the enemy strikes back unless the fight already ended.
//!
//! Dice rolls are random, so the contracts quantify over the rolled sums:
//! whatever the dice collaborator returns, the state changes exactly as the
//! rolled value dictates.

use vstd::prelude::*;
use vstd::string::StringExecFns;

use crate::dice::{sum_rolls, Dice};
use crate::player::{best_weapon_spec, clone_item, first_potion_index, has_potion, Item, Player};
use crate::textfmt::i32_to_string;
use crate::world::EnemyTemplate;

verus! {

/// The number of actions a combatant can choose from.
pub const ACTION_COUNT: usize = 4;

/// What the player can do on their turn.
#[derive(Debug, Clone, PartialEq, Eq, Structural)]
pub enum CombatAction {
    Attack,
    Defend,
    UsePotion,
    Flee,
}

/// The action at a menu position: attack, defend, use a potion, flee.
pub open spec fn action_at(i: int) -> CombatAction {
    if i == 0 {
        CombatAction::Attack
    } else if i == 1 {
        CombatAction::Defend
    } else if i == 2 {
        CombatAction::UsePotion
    } else {
        CombatAction::Flee
    }
}

impl CombatAction {
    /// The action at a menu position.
    pub fn from_index(i: usize) -> (a: CombatAction)
        ensures
            a == action_at(i as int),
    {
        if i == 0 {
            CombatAction::Attack
        } else if i == 1 {
            CombatAction::Defend
        } else if i == 2 {
            CombatAction::UsePotion
        } else {
            CombatAction::Flee
        }
    }

    /// The action's menu label.
    pub fn label(&self) -> (r: &'static str)
        ensures
            self is Attack ==> r@ == "Attack"@,
            self is Defend ==> r@ == "Defend"@,
            self is UsePotion ==> r@ == "Use Potion"@,
            self is Flee ==> r@ == "Flee"@,
    {
        match self {
            CombatAction::Attack => "Attack",
            CombatAction::Defend => "Defend",
            CombatAction::UsePotion => "Use Potion",
            CombatAction::Flee => "Flee",
        }
    }
}

/// Where a fight stands.
#[derive(Debug, Clone, Copy, PartialEq, Eq, Structural)]
pub enum CombatPhase {
    PlayerChoosing,
    Victory,
    Defeat,
    Fled,
}

/// One running fight.
#[derive(Debug, Clone)]
pub struct CombatState {
    pub enemy_name: String,
    pub enemy_hp: i32,
    pub enemy_max_hp: i32,
    pub enemy_damage_dice: Dice,
    pub exp_reward: u32,
    pub is_boss: bool,
    pub loot: Option<Item>,
    pub phase: CombatPhase,
    pub selected_action: usize,
    pub defending: bool,
    pub log: Vec<String>,
}

/// The larger of two integers.
pub open spec fn max_i(a: int, b: int) -> int {
    if a > b {
        a
    } else {
        b
    }
}

/// The most an enemy's damage dice can total (never below the minimum
/// clamped total of one).
pub open spec fn enemy_dice_max(d: Dice) -> int {
    max_i(d.count as int * d.sides as int + d.bonus as int, 1)
}

/// Hit points after an enemy strike that rolled a sum of `s`: the clamped
/// dice total, halved (but at least one) when defending, reduced by
/// defense (but at least one), never dropping hit points below zero.
pub open spec fn hit_hp(hp0: int, defense: int, s: int, defending: bool, d: Dice) -> int {
    let dmg0 = max_i(s + d.bonus as int, 1);
    let dmg = if defending {
        max_i(dmg0 / 2, 1)
    } else {
        dmg0
    };
    let reduced = max_i(dmg - defense, 1);
    max_i(hp0 - reduced, 0)
}

/// Arithmetic room the combat round needs: non-negative defense, rollable
/// enemy dice whose totals fit, hit points far enough from the integer
/// floor, an attack bonus whose best roll fits, and a first potion whose
/// heal fits.
pub open spec fn combat_bounds(c: CombatState, p: Player) -> bool {
    &&& 0 <= p.defense
    &&& c.enemy_damage_dice.sides >= 1
    &&& c.enemy_damage_dice.count as int * c.enemy_damage_dice.sides as int <= i32::MAX
    &&& c.enemy_damage_dice.count as int * c.enemy_damage_dice.sides as int
        + c.enemy_damage_dice.bonus as int <= i32::MAX
    &&& i32::MIN <= p.hp - enemy_dice_max(c.enemy_damage_dice)
    &&& i32::MIN <= p.max_hp - enemy_dice_max(c.enemy_damage_dice)
    &&& i32::MIN <= p.attack + best_weapon_spec(p.inventory@)
    &&& p.attack + best_weapon_spec(p.inventory@) <= i32::MAX - 6
    &&& i32::MIN <= c.enemy_hp - max_i(p.attack + best_weapon_spec(p.inventory@) + 6, 1)
    &&& has_potion(p.inventory@) ==> i32::MIN + enemy_dice_max(c.enemy_damage_dice) <= p.hp
        + p.inventory@[first_potion_index(p.inventory@)].value <= i32::MAX
}

/// What one enemy strike leaves behind, given the rolled sum `s`: the
/// player is hit per `hit_hp`, the fight moves to defeat or back to the
/// player's choice, and one or two lines join the log.
pub open spec fn enemy_turn_post(
    c0: CombatState,
    p0: Player,
    c1: CombatState,
    p1: Player,
    s: int,
) -> bool {
    &&& p1 == (Player { hp: hit_hp(p0.hp as int, p0.defense as int, s, c0.defending, c0.enemy_damage_dice) as i32, ..p0 })
    &&& c1.phase == if p1.hp <= 0 {
        CombatPhase::Defeat
    } else {
        CombatPhase::PlayerChoosing
    }
    &&& c1 == (CombatState { phase: c1.phase, log: c1.log, ..c0 })
    &&& c0.log@.is_prefix_of(c1.log@)
    &&& c1.log@.len() == c0.log@.len() + if p1.hp <= 0 {
        2int
    } else {
        1int
    }
}

/// The range of a six-sided die.
pub open spec fn d6_range(roll: int) -> bool {
    1 <= roll <= 6
}

/// The range of a twenty-sided die.
pub open spec fn d20_range(roll: int) -> bool {
    1 <= roll <= 20
}

/// The range an enemy damage roll's sum can take.
pub open spec fn dice_sum_range(d: Dice, s: int) -> bool {
    d.count <= s <= d.count as int * d.sides as int
}

proof fn lemma_sum_rolls_range(s: Seq<u32>, sides: int)
    requires
        forall|k: int| 0 <= k < s.len() ==> 1 <= #[trigger] s[k] <= sides,
    ensures
        s.len() <= sum_rolls(s) <= s.len() * sides,
    decreases s.len(),
{
    if s.len() == 0 {
    } else {
        lemma_sum_rolls_range(s.drop_last(), sides);
        assert(s.len() as int * sides == (s.len() - 1) * sides + sides) by (nonlinear_arith);
    }
}

/// Hit points capped by a maximum.
pub open spec fn heal_cap(v: int, max_hp: int) -> int {
    if v < max_hp {
        v
    } else {
        max_hp
    }
}

/// An attack round: the player rolls one six-sided die plus their total
/// attack, the enemy loses that much health (never below zero); a slain
/// enemy means victory, otherwise the enemy strikes back.
pub open spec fn attack_case(c0: CombatState, p0: Player, c1: CombatState, p1: Player) -> bool {
    let ta = p0.attack + best_weapon_spec(p0.inventory@);
    exists|roll: int|
        #[trigger] d6_range(roll) && {
            let dmg = max_i(roll + ta, 1);
            let ehp = max_i(c0.enemy_hp - dmg, 0);
            &&& c1.enemy_hp == ehp
            &&& if ehp == 0 {
                &&& c1.phase is Victory
                &&& p1 == p0
                &&& c1 == (CombatState {
                    enemy_hp: c1.enemy_hp,
                    phase: c1.phase,
                    defending: false,
                    log: c1.log,
                    ..c0
                })
                &&& c0.log@.is_prefix_of(c1.log@)
                &&& c1.log@.len() == c0.log@.len() + 2
            } else {
                exists|s: int|
                    #[trigger] dice_sum_range(c0.enemy_damage_dice, s) && {
                        &&& p1 == (Player {
                            hp: hit_hp(
                                p0.hp as int,
                                p0.defense as int,
                                s,
                                false,
                                c0.enemy_damage_dice,
                            ) as i32,
                            ..p0
                        })
                        &&& c1.phase == if p1.hp <= 0 {
                            CombatPhase::Defeat
                        } else {
                            CombatPhase::PlayerChoosing
                        }
                        &&& c1 == (CombatState {
                            enemy_hp: c1.enemy_hp,
                            phase: c1.phase,
                            defending: false,
                            log: c1.log,
                            ..c0
                        })
                        &&& c0.log@.is_prefix_of(c1.log@)
                        &&& c1.log@.len() == c0.log@.len() + if p1.hp <= 0 {
                            3int
                        } else {
                            2int
                        }
                    }
            }
        }
}

/// A defend round: the player braces, and the enemy's strike is halved.
pub open spec fn defend_case(c0: CombatState, p0: Player, c1: CombatState, p1: Player) -> bool {
    exists|s: int|
        #[trigger] dice_sum_range(c0.enemy_damage_dice, s) && {
            &&& p1 == (Player {
                hp: hit_hp(p0.hp as int, p0.defense as int, s, true, c0.enemy_damage_dice) as i32,
                ..p0
            })
            &&& c1.phase == if p1.hp <= 0 {
                CombatPhase::Defeat
            } else {
                CombatPhase::PlayerChoosing
            }
            &&& c1 == (CombatState { phase: c1.phase, defending: true, log: c1.log, ..c0 })
            &&& c0.log@.is_prefix_of(c1.log@)
            &&& c1.log@.len() == c0.log@.len() + if p1.hp <= 0 {
                3int
            } else {
                2int
            }
        }
}

/// A potion round: the first potion (if any) is drunk and heals up to the
/// maximum, then the enemy strikes back either way.
pub open spec fn potion_case(c0: CombatState, p0: Player, c1: CombatState, p1: Player) -> bool {
    exists|s: int|
        #[trigger] dice_sum_range(c0.enemy_damage_dice, s) && {
            let healed = if has_potion(p0.inventory@) {
                heal_cap(
                    p0.hp + p0.inventory@[first_potion_index(p0.inventory@)].value as int,
                    p0.max_hp as int,
                )
            } else {
                p0.hp as int
            };
            let inv1 = if has_potion(p0.inventory@) {
                p0.inventory@.remove(first_potion_index(p0.inventory@))
            } else {
                p0.inventory@
            };
            &&& p1.inventory@ == inv1
            &&& p1.hp as int == hit_hp(healed, p0.defense as int, s, false, c0.enemy_damage_dice)
            &&& p1 == (Player { hp: p1.hp, inventory: p1.inventory, ..p0 })
            &&& c1.phase == if p1.hp <= 0 {
                CombatPhase::Defeat
            } else {
                CombatPhase::PlayerChoosing
            }
            &&& c1 == (CombatState { phase: c1.phase, defending: false, log: c1.log, ..c0 })
            &&& c0.log@.is_prefix_of(c1.log@)
            &&& c1.log@.len() == c0.log@.len() + if p1.hp <= 0 {
                3int
            } else {
                2int
            }
        }
}

/// A flee round: a twenty-sided roll of eleven or more escapes the fight;
/// a lower roll fails and the enemy strikes back.
pub open spec fn flee_case(c0: CombatState, p0: Player, c1: CombatState, p1: Player) -> bool {
    exists|roll: int|
        #[trigger] d20_range(roll) && {
            if roll >= 11 {
                &&& c1.phase is Fled
                &&& p1 == p0
                &&& c1 == (CombatState {
                    phase: c1.phase,
                    defending: false,
                    log: c1.log,
                    ..c0
                })
                &&& c0.log@.is_prefix_of(c1.log@)
                &&& c1.log@.len() == c0.log@.len() + 1
            } else {
                exists|s: int|
                    #[trigger] dice_sum_range(c0.enemy_damage_dice, s) && {
                        &&& p1 == (Player {
                            hp: hit_hp(
                                p0.hp as int,
                                p0.defense as int,
                                s,
                                false,
                                c0.enemy_damage_dice,
                            ) as i32,
                            ..p0
                        })
                        &&& c1.phase == if p1.hp <= 0 {
                            CombatPhase::Defeat
                        } else {
                            CombatPhase::PlayerChoosing
                        }
                        &&& c1 == (CombatState {
                            phase: c1.phase,
                            defending: false,
                            log: c1.log,
                            ..c0
                        })
                        &&& c0.log@.is_prefix_of(c1.log@)
                        &&& c1.log@.len() == c0.log@.len() + if p1.hp <= 0 {
                            3int
                        } else {
                            2int
                        }
                    }
            }
        }
}

/// How one combat round changes the fight and the player, by the action
/// that was selected.
pub open spec fn execute_action_post(
    c0: CombatState,
    p0: Player,
    c1: CombatState,
    p1: Player,
) -> bool {
    let act = action_at(c0.selected_action as int);
    &&& act is Attack ==> attack_case(c0, p0, c1, p1)
    &&& act is Defend ==> defend_case(c0, p0, c1, p1)
    &&& act is UsePotion ==> potion_case(c0, p0, c1, p1)
    &&& act is Flee ==> flee_case(c0, p0, c1, p1)
}

impl CombatState {
    /// A fresh fight against an enemy of the given template: full enemy
    /// health, the player choosing, and one log line announcing the enemy.
    /// The template's flat damage becomes the bonus of a four-sided die.
    pub fn from_template(template: &EnemyTemplate) -> (c: CombatState)
        ensures
            c.enemy_name == template.name,
            c.enemy_hp == template.hp,
            c.enemy_max_hp == template.hp,
            c.enemy_damage_dice == (Dice { count: 1, sides: 4, bonus: template.damage }),
            c.exp_reward == template.exp_reward,
            c.is_boss == template.is_boss,
            c.loot == template.loot,
            c.phase is PlayerChoosing,
            c.selected_action == 0,
            !c.defending,
            c.log@.len() == 1,
            c.log@[0]@ == "A "@ + template.name@ + " appears!"@,
    {
        let mut msg = String::from_str("A ");
        msg.append(template.name.as_str());
        msg.append(" appears!");
        let mut log: Vec<String> = Vec::new();
        log.push(msg);
        let loot: Option<Item> = match &template.loot {
            Some(it) => Some(clone_item(it)),
            None => None,
        };
        CombatState {
            enemy_name: template.name.clone(),
            enemy_hp: template.hp,
            enemy_max_hp: template.hp,
            enemy_damage_dice: Dice::new(1, 4, template.damage),
            exp_reward: template.exp_reward,
            is_boss: template.is_boss,
            loot,
            phase: CombatPhase::PlayerChoosing,
            selected_action: 0,
            defending: false,
            log,
        }
    }

    /// The enemy strikes back: its damage dice are rolled, the damage is
    /// halved while defending, reduced by defense, and dealt; a slain
    /// player ends the fight in defeat, otherwise the choice returns to
    /// the player.
    fn enemy_turn(&mut self, player: &mut Player)
        requires
            0 <= old(player).defense,
            old(self).enemy_damage_dice.sides >= 1,
            old(self).enemy_damage_dice.count as int * old(self).enemy_damage_dice.sides as int
                <= i32::MAX,
            old(self).enemy_damage_dice.count as int * old(self).enemy_damage_dice.sides as int
                + old(self).enemy_damage_dice.bonus as int <= i32::MAX,
            i32::MIN <= old(player).hp - enemy_dice_max(old(self).enemy_damage_dice),
        ensures
            exists|s: int|
                #[trigger] dice_sum_range(old(self).enemy_damage_dice, s) && enemy_turn_post(
                    *old(self),
                    *old(player),
                    *final(self),
                    *final(player),
                    s,
                ),
    {
        let result = self.enemy_damage_dice.roll();
        proof {
            lemma_sum_rolls_range(result.rolls@, self.enemy_damage_dice.sides as int);
        }
        let ghost s = sum_rolls(result.rolls@);
        let mut damage = result.total;
        if self.defending {
            damage = damage / 2;
            if damage < 1 {
                damage = 1;
            }
        }
        let mut reduced = damage - player.defense;
        if reduced < 1 {
            reduced = 1;
        }
        let left = player.hp - reduced;
        player.hp = if left > 0 {
            left
        } else {
            0
        };
        let desc = result.describe();
        let mut msg = String::from_str("The ");
        msg.append(self.enemy_name.as_str());
        if self.defending {
            msg.append(" attacks! (");
            msg.append(desc.as_str());
            msg.append(") - blocked! ");
            let red_str = i32_to_string(reduced);
            msg.append(red_str.as_str());
            msg.append(" damage taken.");
        } else {
            msg.append(" attacks! (");
            msg.append(desc.as_str());
            msg.append(") = ");
            let red_str = i32_to_string(reduced);
            msg.append(red_str.as_str());
            msg.append(" damage!");
        }
        self.log.push(msg);
        if !player.is_alive() {
            self.phase = CombatPhase::Defeat;
            self.log.push(String::from_str("You have been slain..."));
        } else {
            self.phase = CombatPhase::PlayerChoosing;
        }
        proof {
            assert(dice_sum_range(old(self).enemy_damage_dice, s));
            assert(enemy_turn_post(*old(self), *old(player), *self, *player, s));
        }
    }

    /// Resolves the selected action: an attack, a defensive stance, a
    /// potion or a flight attempt, followed by the enemy's strike unless
    /// the fight ended.
    #[verifier::rlimit(100)]
    pub fn execute_action(&mut self, player: &mut Player)
        requires
            combat_bounds(*old(self), *old(player)),
        ensures
            execute_action_post(*old(self), *old(player), *final(self), *final(player)),
    {
        let action = CombatAction::from_index(self.selected_action);
        self.defending = false;
        match action {
            CombatAction::Attack => {
                let ta = player.total_attack();
                let attack_dice = Dice::new(1, 6, ta);
                let result = attack_dice.roll();
                proof {
                    lemma_sum_rolls_range(result.rolls@, 6);
                }
                let ghost roll = sum_rolls(result.rolls@);
                let damage = result.total;
                let left = self.enemy_hp - damage;
                self.enemy_hp = if left > 0 {
                    left
                } else {
                    0
                };
                let desc = result.describe();
                let mut msg = String::from_str("You attack! (");
                msg.append(desc.as_str());
                msg.append(") = ");
                let dmg_str = i32_to_string(damage);
                msg.append(dmg_str.as_str());
                msg.append(" damage!");
                self.log.push(msg);
                if self.enemy_hp <= 0 {
                    self.phase = CombatPhase::Victory;
                    let mut msg2 = String::from_str("The ");
                    msg2.append(self.enemy_name.as_str());
                    msg2.append(" is defeated!");
                    self.log.push(msg2);
                    proof {
                        assert(d6_range(roll));
                        assert(self.log@.subrange(0, old(self).log@.len() as int) =~= old(
                            self,
                        ).log@);
                        assert(old(self).log@.is_prefix_of(self.log@));
                        assert(attack_case(*old(self), *old(player), *self, *player));
                    }
                    return ;
                }
                let ghost cmid = *self;
                let ghost pmid = *player;
                self.enemy_turn(player);
                proof {
                    let s = choose|s: int|
                        dice_sum_range(cmid.enemy_damage_dice, s) && enemy_turn_post(
                            cmid,
                            pmid,
                            *self,
                            *player,
                            s,
                        );
                    assert(d6_range(roll));
                    assert(self.log@.subrange(0, old(self).log@.len() as int) =~= old(self).log@);
                    assert(old(self).log@.is_prefix_of(self.log@));
                    assert(attack_case(*old(self), *old(player), *self, *player));
                }
            },
            CombatAction::Defend => {
                self.defending = true;
                self.log.push(
                    String::from_str("You brace yourself, reducing incoming damage."),
                );
                let ghost cmid = *self;
                let ghost pmid = *player;
                self.enemy_turn(player);
                proof {
                    let s = choose|s: int|
                        dice_sum_range(cmid.enemy_damage_dice, s) && enemy_turn_post(
                            cmid,
                            pmid,
                            *self,
                            *player,
                            s,
                        );
                    assert(self.log@.subrange(0, old(self).log@.len() as int) =~= old(self).log@);
                    assert(defend_case(*old(self), *old(player), *self, *player));
                }
            },
            CombatAction::UsePotion => {
                match player.use_potion() {
                    Some(healed) => {
                        let mut msg = String::from_str("You drink a potion and recover ");
                        let h_str = i32_to_string(healed);
                        msg.append(h_str.as_str());
                        msg.append(" HP.");
                        self.log.push(msg);
                    },
                    None => {
                        self.log.push(String::from_str("You have no potions!"));
                    },
                }
                let ghost cmid = *self;
                let ghost pmid = *player;
                self.enemy_turn(player);
                proof {
                    let s = choose|s: int|
                        dice_sum_range(cmid.enemy_damage_dice, s) && enemy_turn_post(
                            cmid,
                            pmid,
                            *self,
                            *player,
                            s,
                        );
                    assert(self.log@.subrange(0, old(self).log@.len() as int) =~= old(self).log@);
                    assert(potion_case(*old(self), *old(player), *self, *player));
                }
            },
            CombatAction::Flee => {
                let flee_dice = Dice::new(1, 20, 0);
                let flee_roll = flee_dice.roll();
                proof {
                    lemma_sum_rolls_range(flee_roll.rolls@, 20);
                }
                let ghost roll = sum_rolls(flee_roll.rolls@);
                let desc = flee_roll.describe();
                if flee_roll.total >= 11 {
                    self.phase = CombatPhase::Fled;
                    let mut msg = String::from_str("You roll to flee (");
                    msg.append(desc.as_str());
                    msg.append(") - escaped!");
                    self.log.push(msg);
                    proof {
                        assert(d20_range(roll));
                        assert(self.log@.subrange(0, old(self).log@.len() as int) =~= old(
                            self,
                        ).log@);
                        assert(old(self).log@.is_prefix_of(self.log@));
                        assert(flee_case(*old(self), *old(player), *self, *player));
                    }
                    return ;
                }
                let mut msg = String::from_str("You roll to flee (");
                msg.append(desc.as_str());
                msg.append(") - failed!");
                self.log.push(msg);
                let ghost cmid = *self;
                let ghost pmid = *player;
                self.enemy_turn(player);
                proof {
                    let s = choose|s: int|
                        dice_sum_range(cmid.enemy_damage_dice, s) && enemy_turn_post(
                            cmid,
                            pmid,
                            *self,
                            *player,
                            s,
                        );
                    assert(d20_range(roll));
                    assert(self.log@.subrange(0, old(self).log@.len() as int) =~= old(self).log@);
                    assert(old(self).log@.is_prefix_of(self.log@));
                    assert(flee_case(*old(self), *old(player), *self, *player));
                }
            },
        }
    }
}

} // verus!
