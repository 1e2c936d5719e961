use vstd::prelude::*;

use crate::model::{Battle, Monster, MonsterV};

verus! {

/// Damage dealt by one attack: attack minus defense, floored at 1 so that
/// even an attack that cannot pierce the defense makes progress.
pub open spec fn damage_of(attack: int, defense: int) -> int {
    if attack > defense {
        attack - defense
    } else {
        1
    }
}

/// Turn order, computed once before combat: the strictly faster monster
/// acts first; at equal speed the strictly stronger attacker acts first;
/// at equal speed and equal attack, monster A acts first.
pub open spec fn a_acts_first(a: MonsterV, b: MonsterV) -> bool {
    ||| a.speed > b.speed
    ||| (a.speed == b.speed && a.attack >= b.attack)
}

/// Whether monster A wins the alternating combat from the given working
/// hit points, with `a_turn` saying whose turn it is. Each turn deals at
/// least one point of damage, so the recursion is well founded.
pub open spec fn fight_a_wins(a: MonsterV, b: MonsterV, a_hp: int, b_hp: int, a_turn: bool) -> bool
    decreases a_hp + b_hp,
{
    if a_hp <= 0 {
        false
    } else if b_hp <= 0 {
        true
    } else if a_turn {
        if b_hp <= damage_of(a.attack, b.defense) {
            true
        } else {
            fight_a_wins(a, b, a_hp, b_hp - damage_of(a.attack, b.defense), false)
        }
    } else {
        if a_hp <= damage_of(b.attack, a.defense) {
            false
        } else {
            fight_a_wins(a, b, a_hp - damage_of(b.attack, a.defense), b_hp, true)
        }
    }
}

/// The winner of a battle between the two snapshots: a pure function of
/// the snapshots alone, so resolving the same inputs twice yields the
/// identical winner.
pub open spec fn winner_id(a: MonsterV, b: MonsterV) -> Seq<char> {
    if fight_a_wins(a, b, a.hp, b.hp, a_acts_first(a, b)) {
        a.id
    } else {
        b.id
    }
}

/// Resolves a battle between two monster snapshots: pure, deterministic,
/// no side effects on the inputs beyond consuming the copies. Returns an
/// outcome record with the winner decided, the identifier still empty and
/// the timestamps still absent (the store assigns those at persistence).
#[verifier::loop_isolation(false)]
pub fn battle(monster_a: Monster, monster_b: Monster) -> (r: Battle)
    requires
        monster_a.hp > 0,
        monster_b.hp > 0,
    ensures
        r@.winner == winner_id(monster_a@, monster_b@),
        r@.winner == monster_a@.id || r@.winner == monster_b@.id,
        r@.monster_a == monster_a@.id,
        r@.monster_b == monster_b@.id,
        r@.id == Seq::<char>::empty(),
        r@.created_at is None,
        r@.updated_at is None,
{
    let ghost a0 = monster_a@;
    let ghost b0 = monster_b@;

    let a_first: bool = monster_a.speed > monster_b.speed
        || (monster_a.speed == monster_b.speed && monster_a.attack >= monster_b.attack);
    let mut a_hp: i64 = monster_a.hp as i64;
    let mut b_hp: i64 = monster_b.hp as i64;
    let mut a_turn: bool = a_first;

    loop
        invariant
            0 < a_hp <= i32::MAX as i64,
            0 < b_hp <= i32::MAX as i64,
            fight_a_wins(a0, b0, a_hp as int, b_hp as int, a_turn) == fight_a_wins(
                a0,
                b0,
                a0.hp,
                b0.hp,
                a_acts_first(a0, b0),
            ),
        decreases a_hp + b_hp,
    {
        if a_turn {
            let damage: i64 = if monster_a.attack > monster_b.defense {
                monster_a.attack as i64 - monster_b.defense as i64
            } else {
                1
            };
            assert(damage as int == damage_of(a0.attack, b0.defense));
            let ghost prev_b: int = b_hp as int;
            b_hp = b_hp - damage;
            if b_hp <= 0 {
                assert(fight_a_wins(a0, b0, a0.hp, b0.hp, a_acts_first(a0, b0)));
                return Battle {
                    id: String::new(),
                    monster_a: monster_a.id.clone(),
                    monster_b: monster_b.id,
                    winner: monster_a.id,
                    created_at: None,
                    updated_at: None,
                };
            }
            assert(fight_a_wins(a0, b0, a_hp as int, prev_b, true) == fight_a_wins(
                a0,
                b0,
                a_hp as int,
                b_hp as int,
                false,
            ));
            a_turn = false;
        } else {
            let damage: i64 = if monster_b.attack > monster_a.defense {
                monster_b.attack as i64 - monster_a.defense as i64
            } else {
                1
            };
            assert(damage as int == damage_of(b0.attack, a0.defense));
            let ghost prev_a: int = a_hp as int;
            a_hp = a_hp - damage;
            if a_hp <= 0 {
                assert(!fight_a_wins(a0, b0, a0.hp, b0.hp, a_acts_first(a0, b0)));
                return Battle {
                    id: String::new(),
                    monster_a: monster_a.id,
                    monster_b: monster_b.id.clone(),
                    winner: monster_b.id,
                    created_at: None,
                    updated_at: None,
                };
            }
            assert(fight_a_wins(a0, b0, prev_a, b_hp as int, false) == fight_a_wins(
                a0,
                b0,
                a_hp as int,
                b_hp as int,
                true,
            ));
            a_turn = true;
        }
    }
}

/// Combat always terminates with the winner one of the two participants;
/// in particular for a strictly faster monster A. Termination itself is
/// what the `decreases` measures of `fight_a_wins` and of the combat loop
/// in `battle` establish: the damage floor forces progress every turn.
pub proof fn lemma_winner_is_a_participant(a: MonsterV, b: MonsterV)
    requires
        a.speed > b.speed,
    ensures
        winner_id(a, b) == a.id || winner_id(a, b) == b.id,
{
}

/// Tie-break: at equal speed and equal attack, monster A acts first.
pub proof fn lemma_tie_break_a_first(a: MonsterV, b: MonsterV)
    requires
        a.speed == b.speed,
        a.attack == b.attack,
    ensures
        a_acts_first(a, b),
{
}

/// Damage floor: an attack deals at least one point of damage, however low
/// the attack is relative to the defense.
pub proof fn lemma_damage_floor(attack: int, defense: int)
    ensures
        damage_of(attack, defense) >= 1,
{
}

/// The number of attacks that bring `hp` to zero or below when every attack
/// deals `dmg` points: `hp / dmg` rounded up.
pub open spec fn turns_to_defeat(hp: int, dmg: int) -> int
    recommends
        hp > 0,
        dmg > 0,
{
    (hp + dmg - 1) / dmg
}

proof fn lemma_dominant_attacker_wins_fight(a: MonsterV, b: MonsterV, a_hp: int, b_hp: int)
    requires
        a_hp > 0,
        b_hp > 0,
        a.attack > b.defense,
        b.attack <= a.defense,
        turns_to_defeat(b_hp, a.attack - b.defense) <= a_hp,
    ensures
        fight_a_wins(a, b, a_hp, b_hp, true),
    decreases b_hp,
{
    let d: int = a.attack - b.defense;
    if b_hp > d {
        assert((b_hp - d + d - 1) / d == (b_hp + d - 1) / d - 1) by (nonlinear_arith)
            requires
                d >= 1,
                b_hp > d,
        ;
        assert((b_hp - d + d - 1) / d >= 1) by (nonlinear_arith)
            requires
                d >= 1,
                b_hp - d > 0,
        ;
        lemma_dominant_attacker_wins_fight(a, b, a_hp - 1, b_hp - d);
        assert(fight_a_wins(a, b, a_hp, b_hp, true) == fight_a_wins(a, b, a_hp, b_hp - d, false));
        assert(fight_a_wins(a, b, a_hp, b_hp - d, false) == fight_a_wins(
            a,
            b,
            a_hp - 1,
            b_hp - d,
            true,
        ));
    }
}

proof fn lemma_mirror_fight_first_actor_wins(a: MonsterV, b: MonsterV, hp: int)
    requires
        hp > 0,
        a.attack == b.attack,
        a.defense == b.defense,
    ensures
        fight_a_wins(a, b, hp, hp, true),
    decreases hp,
{
    let d: int = damage_of(a.attack, b.defense);
    if hp > d {
        lemma_mirror_fight_first_actor_wins(a, b, hp - d);
        assert(fight_a_wins(a, b, hp, hp, true) == fight_a_wins(a, b, hp, hp - d, false));
        assert(fight_a_wins(a, b, hp, hp - d, false) == fight_a_wins(a, b, hp - d, hp - d, true));
    }
}

/// Two monsters with equal stats in every dimension: the turn-order
/// tie-break hands monster A the first strike, and with mirrored damage and
/// equal hit points the first striker is always one hit ahead, so monster A
/// wins deterministically.
pub proof fn lemma_equal_stats_a_wins(a: MonsterV, b: MonsterV)
    requires
        a.hp > 0,
        a.attack == b.attack,
        a.defense == b.defense,
        a.speed == b.speed,
        a.hp == b.hp,
    ensures
        winner_id(a, b) == a.id,
{
    lemma_mirror_fight_first_actor_wins(a, b, a.hp);
}

/// A first striker whose attack pierces the defender's defense, and whose
/// own defense caps the retaliation at the 1-point floor, wins — provided
/// its hit points outlast the `turns_to_defeat(b.hp, a.attack - b.defense)`
/// rounds the kill takes. (The bound is part of the law: with fewer hit
/// points than that, the 1-point retaliations fell the striker first.)
pub proof fn lemma_dominant_attacker_wins(a: MonsterV, b: MonsterV)
    requires
        a.hp > 0,
        b.hp > 0,
        a_acts_first(a, b),
        a.attack > b.defense,
        b.attack <= a.defense,
        turns_to_defeat(b.hp, a.attack - b.defense) <= a.hp,
    ensures
        winner_id(a, b) == a.id,
{
    lemma_dominant_attacker_wins_fight(a, b, a.hp, b.hp);
}

} // verus!

