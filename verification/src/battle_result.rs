//! The grade of a battle, decided from the hit points lost and left.

use crate::battle::{Battle, BattleView};
use crate::battle_log::initial_hps;
use crate::fleet::{ship_views, snapshot_hps, FleetLike};
use crate::ship::Ship;
use crate::snapshot::ShipSnapshot;
use vstd::prelude::*;

verus! {

/// Grade of a battle, from the best, `SS`, to the worst, `E`.
#[derive(Clone, Copy, Debug, PartialEq, Eq, Structural)]
pub enum BattleResult {
    SS,
    S,
    A,
    B,
    C,
    D,
    E,
}

/// Number of sunk ships among the first `n`.
pub open spec fn sunk_upto(hps: Seq<u16>, n: nat) -> int
    decreases n,
{
    if n == 0 {
        0
    } else {
        sunk_upto(hps, (n - 1) as nat) + if hps[n - 1] == 0 {
            1int
        } else {
            0int
        }
    }
}

/// Sum of the first `n` hit-point values.
pub open spec fn hp_sum_upto(hps: Seq<u16>, n: nat) -> int
    decreases n,
{
    if n == 0 {
        0
    } else {
        hp_sum_upto(hps, (n - 1) as nat) + hps[n - 1]
    }
}

/// Hit points that the first `n` ships have lost since they entered the battle.
pub open spec fn damage_upto(initial: Seq<u16>, hps: Seq<u16>, n: nat) -> int
    decreases n,
{
    if n == 0 {
        0
    } else {
        damage_upto(initial, hps, (n - 1) as nat) + (initial[n - 1] - hps[n - 1])
    }
}

/// What the grade of a battle is decided from.
pub struct Tally {
    pub friend_ships: int,
    pub friend_sunk: int,
    pub enemy_ships: int,
    pub enemy_sunk: int,
    pub enemy_flagship_sunk: bool,
    pub damage_to_friend: int,
    pub damage_to_enemy: int,
    pub friend_initial_hp: int,
    pub enemy_initial_hp: int,
}

/// The tally of a battle as it stands.
pub open spec fn tally_of(battle: BattleView) -> Tally {
    let friend_initial = initial_hps(battle.friend.ships);
    let enemy_initial = initial_hps(battle.enemy.ships);
    Tally {
        friend_ships: battle.friend_hp.len() as int,
        friend_sunk: sunk_upto(battle.friend_hp, battle.friend_hp.len()),
        enemy_ships: battle.enemy_hp.len() as int,
        enemy_sunk: sunk_upto(battle.enemy_hp, battle.enemy_hp.len()),
        enemy_flagship_sunk: battle.enemy_hp.len() > 0 && battle.enemy_hp[0] == 0,
        damage_to_friend: damage_upto(friend_initial, battle.friend_hp, battle.friend_hp.len()),
        damage_to_enemy: damage_upto(enemy_initial, battle.enemy_hp, battle.enemy_hp.len()),
        friend_initial_hp: hp_sum_upto(friend_initial, friend_initial.len()),
        enemy_initial_hp: hp_sum_upto(enemy_initial, enemy_initial.len()),
    }
}

/// Whether the ratio of the two damage gauges is at least `num / den`.
///
/// The gauge of a side is the damage it dealt as a percentage of the hit points
/// that the other side entered with: `100 * damage_to_enemy / enemy_initial_hp`
/// for the player, `100 * damage_to_friend / friend_initial_hp` for the enemy.
/// The ratio is `friend_gauge / (enemy_gauge + 10^-10)`. The comparison is made
/// exactly, both sides multiplied by the denominators. A gauge of a side that
/// entered without hit points is undefined, and no comparison with it holds.
pub open spec fn gauge_ratio_at_least(t: Tally, num: int, den: int) -> bool {
    &&& t.friend_initial_hp > 0
    &&& t.enemy_initial_hp > 0
    &&& den * 1_000_000_000_000 * t.damage_to_enemy * t.friend_initial_hp >= num
        * t.enemy_initial_hp * (1_000_000_000_000 * t.damage_to_friend + t.friend_initial_hp)
}

/// Whether the player's gauge is at least 50.
pub open spec fn friend_gauge_at_least_half(t: Tally) -> bool {
    t.enemy_initial_hp > 0 && 2 * t.damage_to_enemy >= t.enemy_initial_hp
}

/// The grade for a tally. The first rule that applies decides.
///
/// Where the player lost a ship: `B` if the gauge ratio is at least 2.5, or the
/// enemy flagship is sunk and the enemy lost more ships than the player; else
/// `C` if the enemy flagship is sunk or the ratio is at least 1; else `E` if the
/// player lost at least half of the fleet; else `D`.
///
/// Where the player lost none: `SS` if every enemy ship is sunk and the player
/// took no damage, `S` if every enemy ship is sunk; else `A` if at least two
/// thirds of the enemy ships are sunk; else `B` if the enemy flagship is sunk or
/// the ratio is at least 2.5; else `C` if the ratio is at least 1 or the
/// player's gauge is at least 50; else `D`.
pub open spec fn grade(t: Tally) -> BattleResult {
    if t.friend_sunk > 0 {
        if gauge_ratio_at_least(t, 5, 2) || (t.enemy_flagship_sunk && t.enemy_sunk > t.friend_sunk) {
            BattleResult::B
        } else if t.enemy_flagship_sunk || gauge_ratio_at_least(t, 1, 1) {
            BattleResult::C
        } else if 2 * t.friend_sunk >= t.friend_ships {
            BattleResult::E
        } else {
            BattleResult::D
        }
    } else if t.enemy_sunk == t.enemy_ships {
        if t.damage_to_friend == 0 {
            BattleResult::SS
        } else {
            BattleResult::S
        }
    } else if 3 * t.enemy_sunk >= 2 * t.enemy_ships {
        BattleResult::A
    } else if t.enemy_flagship_sunk || gauge_ratio_at_least(t, 5, 2) {
        BattleResult::B
    } else if gauge_ratio_at_least(t, 1, 1) || friend_gauge_at_least_half(t) {
        BattleResult::C
    } else {
        BattleResult::D
    }
}

/// The hit points that each fleet entered with add up to a 32-bit number. The
/// grader counts in 32 bits.
pub open spec fn gradable(battle: BattleView) -> bool {
    &&& tally_of(battle).friend_initial_hp <= u32::MAX
    &&& tally_of(battle).enemy_initial_hp <= u32::MAX
}

/// The counts that the grade of a battle is decided from.
#[derive(Clone, Copy, Debug, PartialEq, Eq)]
pub struct BattleTally {
    pub friend_ships: usize,
    pub friend_sunk: usize,
    pub enemy_ships: usize,
    pub enemy_sunk: usize,
    pub enemy_flagship_sunk: bool,
    pub damage_to_friend: u32,
    pub damage_to_enemy: u32,
    pub friend_initial_hp: u32,
    pub enemy_initial_hp: u32,
}

impl View for BattleTally {
    type V = Tally;

    open spec fn view(&self) -> Tally {
        Tally {
            friend_ships: self.friend_ships as int,
            friend_sunk: self.friend_sunk as int,
            enemy_ships: self.enemy_ships as int,
            enemy_sunk: self.enemy_sunk as int,
            enemy_flagship_sunk: self.enemy_flagship_sunk,
            damage_to_friend: self.damage_to_friend as int,
            damage_to_enemy: self.damage_to_enemy as int,
            friend_initial_hp: self.friend_initial_hp as int,
            enemy_initial_hp: self.enemy_initial_hp as int,
        }
    }
}

/// The sum of hit points over more ships is no smaller, and none is negative.
pub proof fn lemma_hp_sum_monotonic(hps: Seq<u16>, i: nat, j: nat)
    requires
        i <= j,
    ensures
        0 <= hp_sum_upto(hps, i) <= hp_sum_upto(hps, j),
    decreases j,
{
    if i < j {
        lemma_hp_sum_monotonic(hps, i, (j - 1) as nat);
    } else if i > 0 {
        lemma_hp_sum_monotonic(hps, (i - 1) as nat, (i - 1) as nat);
    }
}

/// Whether the hit points that the ships entered with add up to a 32-bit number.
fn initial_hp_fits(ships: &[Ship]) -> (b: bool)
    ensures
        b == (hp_sum_upto(initial_hps(ship_views(ships@)), ships.len() as nat) <= u32::MAX),
{
    let ghost initial = initial_hps(ship_views(ships@));
    let mut total: u32 = 0;
    let mut i: usize = 0;
    while i < ships.len()
        invariant
            i <= ships.len(),
            initial == initial_hps(ship_views(ships@)),
            total == hp_sum_upto(initial, i as nat),
        decreases ships.len() - i,
    {
        let hp = ships[i].hp() as u32;
        if hp > u32::MAX - total {
            proof {
                lemma_hp_sum_monotonic(initial, (i + 1) as nat, ships.len() as nat);
            }
            return false;
        }
        total = total + hp;
        i = i + 1;
    }
    true
}

/// Sunk ships, hit points lost and hit points at entry of one side.
fn side_tally(ships: &[Ship], snapshots: &[ShipSnapshot]) -> (r: (usize, u32, u32))
    requires
        ships.len() == snapshots.len(),
        forall|i: int| 0 <= i < ships.len() ==> (#[trigger] snapshots[i])@ <= ships[i]@.hp(),
        hp_sum_upto(initial_hps(ship_views(ships@)), ships.len() as nat) <= u32::MAX,
    ensures
        r.0 == sunk_upto(snapshot_hps(snapshots@), snapshots.len() as nat),
        r.1 == damage_upto(
            initial_hps(ship_views(ships@)),
            snapshot_hps(snapshots@),
            snapshots.len() as nat,
        ),
        r.2 == hp_sum_upto(initial_hps(ship_views(ships@)), ships.len() as nat),
{
    let ghost initial = initial_hps(ship_views(ships@));
    let ghost hps = snapshot_hps(snapshots@);
    let n = ships.len();
    let mut sunk: usize = 0;
    let mut damage: u32 = 0;
    let mut total: u32 = 0;
    let mut i: usize = 0;
    while i < n
        invariant
            i <= n,
            n == ships.len(),
            n == snapshots.len(),
            initial == initial_hps(ship_views(ships@)),
            hps == snapshot_hps(snapshots@),
            forall|j: int| 0 <= j < n ==> (#[trigger] snapshots[j])@ <= ships[j]@.hp(),
            hp_sum_upto(initial, n as nat) <= u32::MAX,
            sunk == sunk_upto(hps, i as nat),
            sunk <= i,
            damage == damage_upto(initial, hps, i as nat),
            total == hp_sum_upto(initial, i as nat),
            damage <= total,
        decreases n - i,
    {
        let before = ships[i].hp();
        let now = snapshots[i].hp();
        proof {
            lemma_hp_sum_monotonic(initial, (i + 1) as nat, n as nat);
            assert(snapshots[i as int]@ <= ships[i as int]@.hp());
        }
        if now == 0 {
            sunk = sunk + 1;
        }
        damage = damage + (before - now) as u32;
        total = total + before as u32;
        i = i + 1;
    }
    (sunk, damage, total)
}

/// Whether `den * 10^12 * damage_to_enemy * friend_initial_hp` is at least
/// `num * enemy_initial_hp * (10^12 * damage_to_friend + friend_initial_hp)`.
fn ratio_at_least(t: &BattleTally, num: u8, den: u8) -> (b: bool)
    requires
        0 < num <= 8,
        0 < den <= 8,
    ensures
        b == gauge_ratio_at_least(t@, num as int, den as int),
{
    if t.friend_initial_hp == 0 || t.enemy_initial_hp == 0 {
        return false;
    }
    let unit: u128 = 1_000_000_000_000;
    let de = t.damage_to_enemy as u128;
    let he = t.enemy_initial_hp as u128;
    let df = t.damage_to_friend as u128;
    let hf = t.friend_initial_hp as u128;
    assert(den * unit * de <= 8 * 1_000_000_000_000 * 0xffff_ffff) by (nonlinear_arith)
        requires
            0 <= den <= 8,
            unit == 1_000_000_000_000,
            0 <= de <= 0xffff_ffff,
    ;
    let left_part: u128 = (den as u128) * unit * de;
    assert(left_part * hf <= 8 * 1_000_000_000_000 * 0xffff_ffff * 0xffff_ffff) by (nonlinear_arith)
        requires
            0 <= left_part <= 8 * 1_000_000_000_000 * 0xffff_ffff,
            0 <= hf <= 0xffff_ffff,
    ;
    let left: u128 = left_part * hf;
    assert(num * he <= 8 * 0xffff_ffff) by (nonlinear_arith)
        requires
            0 <= num <= 8,
            0 <= he <= 0xffff_ffff,
    ;
    let right_part: u128 = (num as u128) * he;
    assert(unit * df <= 1_000_000_000_000 * 0xffff_ffff) by (nonlinear_arith)
        requires
            unit == 1_000_000_000_000,
            0 <= df <= 0xffff_ffff,
    ;
    let sum: u128 = unit * df + hf;
    assert(right_part * sum <= 8 * 0xffff_ffff * (1_000_000_000_000 * 0xffff_ffff + 0xffff_ffff))
        by (nonlinear_arith)
        requires
            0 <= right_part <= 8 * 0xffff_ffff,
            0 <= sum <= 1_000_000_000_000 * 0xffff_ffff + 0xffff_ffff,
    ;
    let right: u128 = right_part * sum;
    left >= right
}

impl BattleResult {
    /// The grade for a tally: see `grade`.
    pub fn decide(t: &BattleTally) -> (r: BattleResult)
        ensures
            r == grade(t@),
    {
        let friend_sunk = t.friend_sunk as u128;
        let enemy_sunk = t.enemy_sunk as u128;
        if t.friend_sunk > 0 {
            if ratio_at_least(t, 5, 2) || (t.enemy_flagship_sunk && t.enemy_sunk > t.friend_sunk) {
                BattleResult::B
            } else if t.enemy_flagship_sunk || ratio_at_least(t, 1, 1) {
                BattleResult::C
            } else if 2 * friend_sunk >= t.friend_ships as u128 {
                BattleResult::E
            } else {
                BattleResult::D
            }
        } else if t.enemy_sunk == t.enemy_ships {
            if t.damage_to_friend == 0 {
                BattleResult::SS
            } else {
                BattleResult::S
            }
        } else if 3 * enemy_sunk >= 2 * (t.enemy_ships as u128) {
            BattleResult::A
        } else if t.enemy_flagship_sunk || ratio_at_least(t, 5, 2) {
            BattleResult::B
        } else if ratio_at_least(t, 1, 1) || (t.enemy_initial_hp > 0 && 2 * (t.damage_to_enemy as u64)
            >= t.enemy_initial_hp as u64) {
            BattleResult::C
        } else {
            BattleResult::D
        }
    }

    /// Whether the battle can be graded: see `gradable`.
    pub fn can_grade(battle: &Battle) -> (b: bool)
        ensures
            b == gradable(battle@),
    {
        initial_hp_fits(battle.friend_fleet().ships()) && initial_hp_fits(battle.enemy_fleet().ships())
    }

    /// Counts what the grade of the battle is decided from.
    pub fn tally(battle: &Battle) -> (r: BattleTally)
        requires
            battle.wf(),
            gradable(battle@),
        ensures
            r@ == tally_of(battle@),
    {
        let friend_snapshots = battle.friend_snapshots();
        let enemy_snapshots = battle.enemy_snapshots();
        let friend_ships = battle.friend_fleet().ships();
        let enemy_ships = battle.enemy_fleet().ships();
        proof {
            assert forall|i: int| 0 <= i < friend_ships.len() implies (#[trigger] friend_snapshots[i])@
                <= friend_ships[i]@.hp() by {
                assert(battle@.friend_hp[i] == friend_snapshots[i]@);
                assert(battle@.friend.ships[i] == friend_ships[i]@);
            }
            assert forall|i: int| 0 <= i < enemy_ships.len() implies (#[trigger] enemy_snapshots[i])@
                <= enemy_ships[i]@.hp() by {
                assert(battle@.enemy_hp[i] == enemy_snapshots[i]@);
                assert(battle@.enemy.ships[i] == enemy_ships[i]@);
            }
        }
        let friend = side_tally(friend_ships, friend_snapshots);
        let enemy = side_tally(enemy_ships, enemy_snapshots);
        BattleTally {
            friend_ships: friend_snapshots.len(),
            friend_sunk: friend.0,
            enemy_ships: enemy_snapshots.len(),
            enemy_sunk: enemy.0,
            enemy_flagship_sunk: enemy_snapshots.len() > 0 && !enemy_snapshots[0].is_alive(),
            damage_to_friend: friend.1,
            damage_to_enemy: enemy.1,
            friend_initial_hp: friend.2,
            enemy_initial_hp: enemy.2,
        }
    }

    /// The grade of the battle as it stands.
    pub fn calculate(battle: &Battle) -> (r: BattleResult)
        requires
            battle.wf(),
            gradable(battle@),
        ensures
            r == grade(tally_of(battle@)),
    {
        let t = BattleResult::tally(battle);
        BattleResult::decide(&t)
    }
}

/// The grade is a function of the hit points alone, those that the ships entered
/// with and those that they are left with: two battles that agree on them get
/// the same grade, whatever else they differ in.
pub proof fn lemma_grade_depends_on_hit_points(a: BattleView, b: BattleView)
    requires
        a.friend_hp == b.friend_hp,
        a.enemy_hp == b.enemy_hp,
        initial_hps(a.friend.ships) == initial_hps(b.friend.ships),
        initial_hps(a.enemy.ships) == initial_hps(b.enemy.ships),
    ensures
        grade(tally_of(a)) == grade(tally_of(b)),
{
}

} // verus!
