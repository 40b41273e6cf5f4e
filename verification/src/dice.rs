//! Dice expressions like `2d6+3`: a number of same-sided dice and a flat
//! bonus, rolled through the random-number collaborator.

use vstd::prelude::*;
use vstd::string::StringExecFns;

use rand::Rng;

use crate::textfmt::{dec_of, dec_signed, i32_to_string, push_dec_u32, string_from_chars};

verus! {

/// A dice expression like `2d6+3`.
#[derive(Debug, Clone, Copy)]
pub struct Dice {
    pub count: u32,
    pub sides: u32,
    pub bonus: i32,
}

/// One resolved roll: the clamped total, the individual die results, and
/// the expression they came from.
#[derive(Debug, Clone)]
pub struct DiceResult {
    pub total: i32,
    pub rolls: Vec<u32>,
    pub dice: Dice,
}

/// Relies on `rand::thread_rng` and `rand::Rng::gen_range`: a value
/// sampled from `[0, n)`; `gen_range` panics on an empty range, so `n`
/// must be positive. Nothing more is promised of a random value.
#[verifier::external_body]
pub(crate) fn rand_index(n: usize) -> (r: usize)
    requires
        n >= 1,
    ensures
        r < n,
{
    rand::thread_rng().gen_range(0..n)
}

/// The sum of a sequence of die results.
pub open spec fn sum_rolls(s: Seq<u32>) -> int
    decreases s.len(),
{
    if s.len() == 0 {
        0
    } else {
        sum_rolls(s.drop_last()) + s.last()
    }
}

/// The textual form of a dice expression: `NdS`, then `+B` for a positive
/// bonus, `-B` for a negative one, nothing for zero.
pub open spec fn dice_desc(count: int, sides: int, bonus: int) -> Seq<char> {
    dec_of(count) + seq!['d'] + dec_of(sides) + if bonus > 0 {
        seq!['+'] + dec_of(bonus)
    } else if bonus < 0 {
        dec_signed(bonus)
    } else {
        Seq::empty()
    }
}

/// The individual die results joined by plus signs.
pub open spec fn joined_rolls(s: Seq<u32>) -> Seq<char>
    decreases s.len(),
{
    if s.len() == 0 {
        Seq::empty()
    } else if s.len() == 1 {
        dec_of(s[0] as int)
    } else {
        joined_rolls(s.drop_last()) + seq!['+'] + dec_of(s.last() as int)
    }
}

/// The textual form of a resolved roll: the expression, the die results in
/// brackets, and the total.
pub open spec fn roll_desc(r: DiceResult) -> Seq<char> {
    dice_desc(r.dice.count as int, r.dice.sides as int, r.dice.bonus as int) + " ["@
        + joined_rolls(r.rolls@) + "] = "@ + dec_signed(r.total as int)
}

impl Dice {
    /// A dice expression with the given number of dice, sides and bonus.
    pub fn new(count: u32, sides: u32, bonus: i32) -> (d: Dice)
        ensures
            d.count == count,
            d.sides == sides,
            d.bonus == bonus,
    {
        Dice { count, sides, bonus }
    }

    /// Rolls the dice: each die lands between one and the side count, and
    /// the total is the sum plus the bonus, but never below one.
    pub fn roll(&self) -> (r: DiceResult)
        requires
            self.sides >= 1,
            self.count as int * self.sides as int <= i32::MAX,
            self.count as int * self.sides as int + self.bonus as int <= i32::MAX,
        ensures
            r.dice == *self,
            r.rolls@.len() == self.count,
            forall|k: int| 0 <= k < r.rolls@.len() ==> 1 <= #[trigger] r.rolls@[k] <= self.sides,
            r.total as int == if sum_rolls(r.rolls@) + self.bonus >= 1 {
                sum_rolls(r.rolls@) + self.bonus
            } else {
                1
            },
    {
        let mut rolls: Vec<u32> = Vec::new();
        let mut sum: i32 = 0;
        let mut i: u32 = 0;
        while i < self.count
            invariant
                self.sides >= 1,
                self.count as int * self.sides as int <= i32::MAX,
                i <= self.count,
                rolls@.len() == i,
                forall|k: int| 0 <= k < rolls@.len() ==> 1 <= #[trigger] rolls@[k] <= self.sides,
                sum as int == sum_rolls(rolls@),
                sum as int <= i as int * self.sides as int,
                sum >= 0,
            decreases self.count - i,
        {
            proof {
                assert(i as int * self.sides as int + self.sides as int <= self.count as int
                    * self.sides as int && (i as int + 1) * self.sides as int == i as int
                    * self.sides as int + self.sides as int) by (nonlinear_arith)
                    requires
                        0 <= (i as int) && (i as int) < self.count as int,
                        self.sides as int >= 1,
                ;
            }
            let die: u32 = 1 + rand_index(self.sides as usize) as u32;
            let ghost prev = rolls@;
            rolls.push(die);
            proof {
                assert(rolls@.drop_last() =~= prev);
            }
            sum = sum + die as i32;
            i = i + 1;
        }
        let raw = sum + self.bonus;
        let total = if raw >= 1 {
            raw
        } else {
            1
        };
        DiceResult { total, rolls, dice: self.clone() }
    }

    /// The expression as text, such as `2d6+3`.
    pub fn describe(&self) -> (m: String)
        ensures
            m@ == dice_desc(self.count as int, self.sides as int, self.bonus as int),
    {
        let mut out: Vec<char> = Vec::new();
        push_dec_u32(&mut out, self.count);
        out.push('d');
        push_dec_u32(&mut out, self.sides);
        let base = string_from_chars(out);
        let mut m = base;
        if self.bonus > 0 {
            m.append("+");
            let b = i32_to_string(self.bonus);
            m.append(b.as_str());
        } else if self.bonus < 0 {
            let b = i32_to_string(self.bonus);
            m.append(b.as_str());
        }
        proof {
            reveal_strlit("+");
            assert(m@ =~= dice_desc(self.count as int, self.sides as int, self.bonus as int));
        }
        m
    }
}

impl DiceResult {
    /// The roll as text, such as `2d6+3 [4+2] = 9`.
    pub fn describe(&self) -> (m: String)
        ensures
            m@ == roll_desc(*self),
    {
        let mut m = self.dice.describe();
        m.append(" [");
        let mut joined: Vec<char> = Vec::new();
        let mut i: usize = 0;
        while i < self.rolls.len()
            invariant
                i <= self.rolls@.len(),
                joined@ == joined_rolls(self.rolls@.take(i as int)),
            decreases self.rolls@.len() - i,
        {
            proof {
                assert(self.rolls@.take(i as int + 1).drop_last() =~= self.rolls@.take(i as int));
                assert(self.rolls@.take(i as int + 1).last() == self.rolls@[i as int]);
            }
            if i > 0 {
                joined.push('+');
            }
            push_dec_u32(&mut joined, self.rolls[i]);
            i = i + 1;
        }
        proof {
            assert(self.rolls@.take(self.rolls@.len() as int) =~= self.rolls@);
        }
        let joined_str = string_from_chars(joined);
        m.append(joined_str.as_str());
        m.append("] = ");
        let t = i32_to_string(self.total);
        m.append(t.as_str());
        proof {
            assert(m@ =~= roll_desc(*self));
        }
        m
    }
}

} // verus!
