//! Laws of the course of a battle: what every turn and every pass keeps.

use crate::battle::{reason_no_battleship, AttackRolls, BattleView};
use crate::battle_log::{ActionLogView, Phase};
use crate::damage::{
    calculated_damage, effective_armor, lemma_flagship_protection, lemma_friend_survives,
    lemma_protected_damage_bounds, lemma_scratch_damage_bounds, protected_damage,
};
use crate::firepower::{attack_firepower, lemma_attack_firepower_bounds};
use crate::snapshot::remaining_hp;
use crate::turn_order::{lemma_alive_upto, Turn};
use vstd::prelude::*;

verus! {

/// `after` is what `before` can become in the course of a battle: the direction
/// and the fleets are the same, the log has only grown at its end, no ship has
/// gained hit points, and none of the player's ships that was afloat has sunk.
pub open spec fn follows(before: BattleView, after: BattleView) -> bool {
    &&& after.direction == before.direction
    &&& after.friend == before.friend
    &&& after.enemy == before.enemy
    &&& after.friend_hp.len() == before.friend_hp.len()
    &&& after.enemy_hp.len() == before.enemy_hp.len()
    &&& forall|i: int| 0 <= i < before.friend_hp.len() ==> #[trigger] after.friend_hp[i] <= before.friend_hp[i]
    &&& forall|i: int| 0 <= i < before.enemy_hp.len() ==> #[trigger] after.enemy_hp[i] <= before.enemy_hp[i]
    &&& forall|i: int|
        0 <= i < before.friend_hp.len() && before.friend_hp[i] > 0 ==> #[trigger] after.friend_hp[i] > 0
    &&& before.log.len() <= after.log.len()
    &&& after.log.subrange(0, before.log.len() as int) == before.log
}

/// `follows` holds of a battle and itself, and passes along a chain.
pub proof fn lemma_follows_chain(a: BattleView, b: BattleView, c: BattleView)
    requires
        follows(a, b),
        follows(b, c),
    ensures
        follows(a, a),
        follows(a, c),
{
    assert(a.log.subrange(0, a.log.len() as int) =~= a.log);
    assert(c.log.subrange(0, a.log.len() as int) =~= b.log.subrange(0, a.log.len() as int));
    assert forall|i: int| 0 <= i < a.friend_hp.len() implies #[trigger] c.friend_hp[i] <= a.friend_hp[i] by {
        assert(b.friend_hp[i] <= a.friend_hp[i]);
    }
    assert forall|i: int| 0 <= i < a.enemy_hp.len() implies #[trigger] c.enemy_hp[i] <= a.enemy_hp[i] by {
        assert(b.enemy_hp[i] <= a.enemy_hp[i]);
    }
    assert forall|i: int| 0 <= i < a.friend_hp.len() && a.friend_hp[i] > 0 implies #[trigger] c.friend_hp[i]
        > 0 by {
        assert(b.friend_hp[i] > 0);
    }
}

/// One more entry in the log leaves a well-formed battle well formed, and the
/// battle with the entry follows the battle without it.
pub proof fn lemma_logged_follows(s: BattleView, entry: ActionLogView)
    requires
        s.wf(),
    ensures
        s.logged(entry).wf(),
        follows(s, s.logged(entry)),
        s.logged(entry).log == s.log.push(entry),
{
    assert(s.logged(entry).log.subrange(0, s.log.len() as int) =~= s.log);
}

/// A turn keeps a battle well formed and adds one entry to its log. No ship gains
/// hit points by it, and none of the player's ships sinks by it: a hit that would
/// sink one is replaced by one that leaves it afloat.
pub proof fn lemma_turn_follows(
    s: BattleView,
    actor_is_friend: bool,
    actor: usize,
    rolls: AttackRolls,
)
    requires
        s.wf(),
        s.pick_ok(actor_is_friend, rolls.target),
    ensures
        s.turn(actor_is_friend, actor, rolls).wf(),
        follows(s, s.turn(actor_is_friend, actor, rolls)),
        s.turn(actor_is_friend, actor, rolls).log.len() == s.log.len() + 1,
{
    let t = s.turn(actor_is_friend, actor, rolls);
    let targets = s.targets(actor_is_friend);
    assert(t.log.subrange(0, s.log.len() as int) =~= s.log);
    if s.skip_reason(actor_is_friend, actor).is_none() && targets.len() > 0 {
        let hps = s.hps(!actor_is_friend);
        lemma_alive_upto(hps, hps.len());
        let k = choose|k: int| 0 <= k < targets.len() && targets[k] == rolls.target;
        assert(targets[k] < hps.len());
        let target = rolls.target as int;
        let hp = hps[target];
        let attack = s.attack(actor_is_friend, actor as int, target, rolls);
        let ship = s.ships(actor_is_friend)[actor as int];
        assert(ship.wf());
        lemma_attack_firepower_bounds(ship, s.hps(actor_is_friend)[actor as int], s.direction);
        lemma_scratch_damage_bounds(hp, rolls.scratch);
        let firepower = attack_firepower(
            ship,
            s.hps(actor_is_friend)[actor as int],
            s.direction,
        );
        let armor = effective_armor(s.ships(!actor_is_friend)[target].armor(), rolls.armor);
        let calculated = calculated_damage(firepower, armor, hp, rolls.scratch);
        assert(0 <= calculated < 0x10000);
        if !actor_is_friend {
            lemma_friend_survives(target == 0, hp, calculated, rolls.protect);
        }
        let left = remaining_hp(hp, attack.applied_damage);
        assert(left <= hp);
        assert(!actor_is_friend ==> left > 0);
    }
}

/// An attack changes the hit points of its target and of no other ship, and a
/// skipped turn changes none.
pub proof fn lemma_turn_touches_target_only(
    s: BattleView,
    actor_is_friend: bool,
    actor: usize,
    rolls: AttackRolls,
)
    requires
        s.wf(),
        s.pick_ok(actor_is_friend, rolls.target),
    ensures
        ({
            let t = s.turn(actor_is_friend, actor, rolls);
            let other = !actor_is_friend;
            &&& t.hps(actor_is_friend) == s.hps(actor_is_friend)
            &&& t.hps(other).len() == s.hps(other).len()
            &&& forall|i: int|
                0 <= i < s.hps(other).len() && i != rolls.target ==> #[trigger] t.hps(other)[i] == s.hps(
                    other,
                )[i]
            &&& s.skip_reason(actor_is_friend, actor).is_some() || s.targets(actor_is_friend).len() == 0
                ==> t.hps(other) == s.hps(other)
        }),
{
    let hps = s.hps(!actor_is_friend);
    lemma_alive_upto(hps, hps.len());
    let targets = s.targets(actor_is_friend);
    if targets.len() > 0 {
        let k = choose|k: int| 0 <= k < targets.len() && targets[k] == rolls.target;
        assert(targets[k] < hps.len());
    }
}

/// A hit of the enemy that would sink one of the player's ships is replaced. The
/// flagship is left with `hp - floor(hp * 0.5 + floor(hp * r) * 0.3)` hit points,
/// which is more than none and, from two hit points on, at most
/// `floor(hp * 0.8)`. Any other ship is left with one hit point.
pub proof fn lemma_sinking_hit_is_replaced(s: BattleView, actor: usize, rolls: AttackRolls)
    requires
        s.wf(),
        s.pick_ok(false, rolls.target),
        s.skip_reason(false, actor).is_none(),
        s.targets(false).len() > 0,
        s.attack(false, actor as int, rolls.target as int, rolls).calculated_damage
            >= s.friend_hp[rolls.target as int],
    ensures
        rolls.target == 0 ==> s.turn(false, actor, rolls).friend_hp[0] == s.friend_hp[0]
            - protected_damage(true, s.friend_hp[0], rolls.protect),
        rolls.target == 0 ==> s.turn(false, actor, rolls).friend_hp[0] > 0,
        rolls.target == 0 && s.friend_hp[0] >= 2 ==> s.turn(false, actor, rolls).friend_hp[0] <= (8
            * s.friend_hp[0]) / 10,
        rolls.target != 0 ==> s.turn(false, actor, rolls).friend_hp[rolls.target as int] == 1,
{
    let hps = s.friend_hp;
    lemma_alive_upto(hps, hps.len());
    let targets = s.targets(false);
    let k = choose|k: int| 0 <= k < targets.len() && targets[k] == rolls.target;
    assert(targets[k] < hps.len());
    let target = rolls.target as int;
    let hp = hps[target];
    let ship = s.enemy.ships[actor as int];
    assert(ship.wf());
    lemma_attack_firepower_bounds(ship, s.enemy_hp[actor as int], s.direction);
    lemma_scratch_damage_bounds(hp, rolls.scratch);
    lemma_protected_damage_bounds(target == 0, hp, rolls.protect);
    if target == 0 && hp >= 2 {
        lemma_flagship_protection(hp, rolls.protect);
    }
}

/// A hit of the player on an enemy ship takes what the formulas calculated: the
/// enemy has nothing that keeps its ships afloat, and a hit of at least its hit
/// points sinks a ship.
pub proof fn lemma_enemy_takes_calculated_damage(s: BattleView, actor: usize, rolls: AttackRolls)
    requires
        s.wf(),
        s.pick_ok(true, rolls.target),
        s.skip_reason(true, actor).is_none(),
        s.targets(true).len() > 0,
    ensures
        s.turn(true, actor, rolls).enemy_hp[rolls.target as int] == remaining_hp(
            s.enemy_hp[rolls.target as int],
            s.attack(true, actor as int, rolls.target as int, rolls).calculated_damage,
        ),
        s.attack(true, actor as int, rolls.target as int, rolls).calculated_damage
            >= s.enemy_hp[rolls.target as int] ==> s.turn(true, actor, rolls).enemy_hp[rolls.target as int]
            == 0,
{
    let hps = s.enemy_hp;
    lemma_alive_upto(hps, hps.len());
    let targets = s.targets(true);
    let k = choose|k: int| 0 <= k < targets.len() && targets[k] == rolls.target;
    assert(targets[k] < hps.len());
    let ship = s.friend.ships[actor as int];
    assert(ship.wf());
    lemma_attack_firepower_bounds(ship, s.friend_hp[actor as int], s.direction);
    lemma_scratch_damage_bounds(hps[rolls.target as int], rolls.scratch);
}

/// A gunnery pass keeps a battle well formed and adds one entry to its log for
/// each turn. No ship gains hit points in it, and none of the player's ships
/// sinks in it.
pub proof fn lemma_run_follows(s: BattleView, order: Seq<Turn>, rolls: Seq<AttackRolls>)
    requires
        s.wf(),
        s.rolls_ok(order, rolls),
    ensures
        s.run(order, rolls).wf(),
        follows(s, s.run(order, rolls)),
        s.run(order, rolls).log.len() == s.log.len() + order.len(),
    decreases order.len(),
{
    if order.len() == 0 {
        assert(s.log.subrange(0, s.log.len() as int) =~= s.log);
    } else {
        let before = s.run(order.drop_last(), rolls.drop_last());
        lemma_run_follows(s, order.drop_last(), rolls.drop_last());
        lemma_turn_follows(before, order.last().0, order.last().1, rolls.last());
        lemma_follows_chain(s, before, s.run(order, rolls));
    }
}

/// The hit points of every ship stay within bounds through the gunnery of a
/// battle: no ship ends with more than it had, and a ship that entered the
/// battle with no more than its maximum ends with no more than its maximum.
/// None of the player's ships that was afloat is sunk by it.
pub proof fn lemma_artillery_follows(
    s: BattleView,
    first: Seq<AttackRolls>,
    second: Seq<AttackRolls>,
)
    requires
        s.wf(),
        s.artillery_rolls_ok(first, second),
    ensures
        s.artillery(first, second).wf(),
        follows(s, s.artillery(first, second)),
        forall|i: int|
            0 <= i < s.friend.ships.len() && s.friend.ships[i].hp() <= s.friend.ships[i].max_hp()
                ==> #[trigger] s.artillery(first, second).friend_hp[i] <= s.friend.ships[i].max_hp(),
        forall|i: int|
            0 <= i < s.enemy.ships.len() && s.enemy.ships[i].hp() <= s.enemy.ships[i].max_hp()
                ==> #[trigger] s.artillery(first, second).enemy_hp[i] <= s.enemy.ships[i].max_hp(),
{
    let started = s.pass_started();
    lemma_logged_follows(s, ActionLogView::PhaseStart(Phase::Artillery));
    lemma_run_follows(started, started.ordered_by_range(), first);
    let middle = s.first_pass(first);
    lemma_follows_chain(s, started, middle);
    let end = s.artillery(first, second);
    if middle.includes_battleship_class() {
        let restarted = middle.pass_started();
        lemma_logged_follows(middle, ActionLogView::PhaseStart(Phase::Artillery));
        lemma_run_follows(restarted, restarted.ordered_by_index(), second);
        lemma_follows_chain(middle, restarted, end);
    } else {
        lemma_logged_follows(
            middle,
            ActionLogView::TurnSkip { is_friend: true, ship_idx: 0, reason: reason_no_battleship() },
        );
    }
    lemma_follows_chain(s, middle, end);
    assert forall|i: int|
        0 <= i < s.friend.ships.len() && s.friend.ships[i].hp() <= s.friend.ships[i].max_hp()
            implies #[trigger] end.friend_hp[i] <= s.friend.ships[i].max_hp() by {
        assert(end.friend_hp[i] <= end.friend.ships[i].hp());
    }
    assert forall|i: int|
        0 <= i < s.enemy.ships.len() && s.enemy.ships[i].hp() <= s.enemy.ships[i].max_hp()
            implies #[trigger] end.enemy_hp[i] <= s.enemy.ships[i].max_hp() by {
        assert(end.enemy_hp[i] <= end.enemy.ships[i].hp());
    }
}

/// Without a ship of a battleship class in either fleet the second pass is no
/// more than one entry in the log, a skipped turn: no attack is made in it, and
/// every ship keeps the hit points that the first pass left it.
pub proof fn lemma_no_battleship_no_second_pass(
    s: BattleView,
    first: Seq<AttackRolls>,
    second: Seq<AttackRolls>,
)
    requires
        s.wf(),
        s.artillery_rolls_ok(first, second),
        !s.includes_battleship_class(),
    ensures
        s.artillery(first, second).friend_hp == s.first_pass(first).friend_hp,
        s.artillery(first, second).enemy_hp == s.first_pass(first).enemy_hp,
        s.artillery(first, second).log == s.first_pass(first).log.push(
            (ActionLogView::TurnSkip { is_friend: true, ship_idx: 0, reason: reason_no_battleship() }),
        ),
{
    let started = s.pass_started();
    lemma_logged_follows(s, ActionLogView::PhaseStart(Phase::Artillery));
    lemma_run_follows(started, started.ordered_by_range(), first);
}

} // verus!
