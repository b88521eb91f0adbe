//! The order in which the ships fire, in both passes, and what holds of it.

use crate::fleet::{ship_views, snapshot_hps};
use crate::ship::{Ship, ShipView};
use crate::snapshot::ShipSnapshot;
use itertools::Itertools;
use vstd::prelude::*;

verus! {

/// One place in a firing order: the side (`true` for the player's fleet) and the
/// ship's position in its fleet.
pub type Turn = (bool, usize);

/// Positions below `n` of the ships that are afloat, in rising order.
pub open spec fn alive_upto(hps: Seq<u16>, n: nat) -> Seq<usize>
    decreases n,
{
    if n == 0 {
        Seq::empty()
    } else if hps[n - 1] > 0 {
        alive_upto(hps, (n - 1) as nat).push((n - 1) as usize)
    } else {
        alive_upto(hps, (n - 1) as nat)
    }
}

/// Positions of the ships that are afloat, in rising order.
pub open spec fn alive_indices(hps: Seq<u16>) -> Seq<usize> {
    alive_upto(hps, hps.len())
}

/// Positions below `n` of the ships that are afloat and whose range has the rank
/// `rank`, in rising order.
pub open spec fn class_upto(ships: Seq<ShipView>, hps: Seq<u16>, rank: nat, n: nat) -> Seq<usize>
    decreases n,
{
    if n == 0 {
        Seq::empty()
    } else if hps[n - 1] > 0 && ships[n - 1].range().rank() == rank {
        class_upto(ships, hps, rank, (n - 1) as nat).push((n - 1) as usize)
    } else {
        class_upto(ships, hps, rank, (n - 1) as nat)
    }
}

/// The ships afloat whose range has a rank of at most `top`: the longest range
/// first, and ships of one range in the order of their positions.
pub open spec fn by_range_from(ships: Seq<ShipView>, hps: Seq<u16>, top: nat) -> Seq<usize>
    decreases top,
{
    if top == 0 {
        class_upto(ships, hps, 0, ships.len())
    } else {
        class_upto(ships, hps, top, ships.len()) + by_range_from(ships, hps, (top - 1) as nat)
    }
}

/// The ships afloat, sorted by falling range; ships of the same range keep the
/// order of their positions.
pub open spec fn by_range(ships: Seq<ShipView>, hps: Seq<u16>) -> Seq<usize> {
    by_range_from(ships, hps, 5)
}

/// The positions as turns of one side.
pub open spec fn tagged(is_friend: bool, positions: Seq<usize>) -> Seq<Turn> {
    positions.map_values(|i: usize| (is_friend, i))
}

/// The items of `first` and `second` in turn, beginning with `first`; when one
/// runs out, the rest of the other follows.
pub open spec fn interleave(first: Seq<Turn>, second: Seq<Turn>) -> Seq<Turn>
    decreases first.len() + second.len(),
{
    if first.len() == 0 {
        second
    } else {
        seq![first[0]] + interleave(second, first.drop_first())
    }
}

/// Whether the player's fleet fires first: its best range is at least the
/// enemy's. A side without a ship afloat has a best range below every other.
pub open spec fn friend_leads(
    friend: Seq<ShipView>,
    friend_order: Seq<usize>,
    enemy: Seq<ShipView>,
    enemy_order: Seq<usize>,
) -> bool {
    enemy_order.len() == 0 || (friend_order.len() > 0 && friend[friend_order[0] as int].range().rank()
        >= enemy[enemy_order[0] as int].range().rank())
}

/// Firing order of the first pass. Each side's ships afloat are sorted by falling
/// range. The side whose best range is at least the other's leads, the player's
/// on a tie, and the two sides then fire in turn.
pub open spec fn range_order(
    friend: Seq<ShipView>,
    friend_hp: Seq<u16>,
    enemy: Seq<ShipView>,
    enemy_hp: Seq<u16>,
) -> Seq<Turn> {
    let f = by_range(friend, friend_hp);
    let e = by_range(enemy, enemy_hp);
    if friend_leads(friend, f, enemy, e) {
        interleave(tagged(true, f), tagged(false, e))
    } else {
        interleave(tagged(false, e), tagged(true, f))
    }
}

/// Firing order of the second pass: the ships afloat of each side by position,
/// the two sides in turn, the player's first.
pub open spec fn index_order(friend_hp: Seq<u16>, enemy_hp: Seq<u16>) -> Seq<Turn> {
    interleave(tagged(true, alive_indices(friend_hp)), tagged(false, alive_indices(enemy_hp)))
}

/// `Itertools::interleave`, collected into a vector. The claim is what
/// `itertools` documents: the items of the two sequences alternate, the first
/// sequence beginning, and once one sequence has run out the rest of the other
/// follows in its order.
#[verifier::external_body]
pub(crate) fn interleave_turns(first: Vec<Turn>, second: Vec<Turn>) -> (r: Vec<Turn>)
    ensures
        r@ == interleave(first@, second@),
{
    first.into_iter().interleave(second.into_iter()).collect()
}

/// Positions of the ships that are afloat, in rising order.
pub fn filter_alive(snapshots: &[ShipSnapshot]) -> (r: Vec<usize>)
    ensures
        r@ == alive_indices(snapshot_hps(snapshots@)),
{
    let ghost hps = snapshot_hps(snapshots@);
    let mut out: Vec<usize> = Vec::new();
    let mut i: usize = 0;
    while i < snapshots.len()
        invariant
            i <= snapshots.len(),
            hps == snapshot_hps(snapshots@),
            out@ == alive_upto(hps, i as nat),
        decreases snapshots.len() - i,
    {
        if snapshots[i].is_alive() {
            out.push(i);
        }
        i = i + 1;
    }
    out
}

/// Rank of each ship's range.
fn range_levels(ships: &[Ship]) -> (r: Vec<u8>)
    ensures
        r.len() == ships.len(),
        forall|i: int| 0 <= i < ships.len() ==> (#[trigger] r[i]) == ships[i]@.range().rank(),
{
    let mut out: Vec<u8> = Vec::new();
    let mut i: usize = 0;
    while i < ships.len()
        invariant
            i <= ships.len(),
            out.len() == i,
            forall|j: int| 0 <= j < i ==> (#[trigger] out[j]) == ships[j]@.range().rank(),
        decreases ships.len() - i,
    {
        out.push(ships[i].range().level());
        i = i + 1;
    }
    out
}

/// The ships afloat, sorted by falling range; ships of the same range keep the
/// order of their positions.
pub fn sort_by_range(ships: &[Ship], snapshots: &[ShipSnapshot]) -> (r: Vec<usize>)
    requires
        ships.len() == snapshots.len(),
    ensures
        r@ == by_range(ship_views(ships@), snapshot_hps(snapshots@)),
{
    let ghost views = ship_views(ships@);
    let ghost hps = snapshot_hps(snapshots@);
    let levels = range_levels(ships);
    let n = ships.len();
    let mut out: Vec<usize> = Vec::new();
    let mut rank: u8 = 5;
    loop
        invariant_except_break
            out@ + by_range_from(views, hps, rank as nat) == by_range(views, hps),
        invariant
            rank <= 5,
            n == ships.len(),
            n == snapshots.len(),
            levels.len() == n,
            views == ship_views(ships@),
            hps == snapshot_hps(snapshots@),
            forall|i: int| 0 <= i < n ==> (#[trigger] levels[i]) == views[i].range().rank(),
        ensures
            out@ == by_range(views, hps),
        decreases rank,
    {
        let ghost before = out@;
        let mut i: usize = 0;
        while i < n
            invariant
                i <= n,
                rank <= 5,
                n == ships.len(),
                n == snapshots.len(),
                levels.len() == n,
                views == ship_views(ships@),
                hps == snapshot_hps(snapshots@),
                forall|j: int| 0 <= j < n ==> (#[trigger] levels[j]) == views[j].range().rank(),
                out@ == before + class_upto(views, hps, rank as nat, i as nat),
            decreases n - i,
        {
            if snapshots[i].is_alive() && levels[i] == rank {
                out.push(i);
            }
            i = i + 1;
        }
        if rank == 0 {
            break ;
        }
        rank = rank - 1;
    }
    out
}

/// The positions as turns of one side.
pub fn tag(is_friend: bool, positions: &Vec<usize>) -> (r: Vec<Turn>)
    ensures
        r@ == tagged(is_friend, positions@),
{
    let mut out: Vec<Turn> = Vec::new();
    let mut i: usize = 0;
    while i < positions.len()
        invariant
            i <= positions.len(),
            out.len() == i,
            forall|j: int| 0 <= j < i ==> (#[trigger] out[j]) == (is_friend, positions[j]),
        decreases positions.len() - i,
    {
        out.push((is_friend, positions[i]));
        i = i + 1;
    }
    assert(out@ =~= tagged(is_friend, positions@));
    out
}

/// Firing order of the first pass, over the ships that are afloat now.
pub fn order_by_range(
    friend: &[Ship],
    friend_snapshots: &[ShipSnapshot],
    enemy: &[Ship],
    enemy_snapshots: &[ShipSnapshot],
) -> (r: Vec<Turn>)
    requires
        friend.len() == friend_snapshots.len(),
        enemy.len() == enemy_snapshots.len(),
    ensures
        r@ == range_order(
            ship_views(friend@),
            snapshot_hps(friend_snapshots@),
            ship_views(enemy@),
            snapshot_hps(enemy_snapshots@),
        ),
{
    let f = sort_by_range(friend, friend_snapshots);
    let e = sort_by_range(enemy, enemy_snapshots);
    proof {
        lemma_by_range_is_stable_sort(ship_views(friend@), snapshot_hps(friend_snapshots@));
        lemma_by_range_is_stable_sort(ship_views(enemy@), snapshot_hps(enemy_snapshots@));
    }
    let friend_first = if e.len() == 0 {
        true
    } else if f.len() == 0 {
        false
    } else {
        friend[f[0]].range().level() >= enemy[e[0]].range().level()
    };
    if friend_first {
        interleave_turns(tag(true, &f), tag(false, &e))
    } else {
        interleave_turns(tag(false, &e), tag(true, &f))
    }
}

/// Firing order of the second pass, over the ships that are afloat now.
pub fn order_by_index(
    friend_snapshots: &[ShipSnapshot],
    enemy_snapshots: &[ShipSnapshot],
) -> (r: Vec<Turn>)
    ensures
        r@ == index_order(snapshot_hps(friend_snapshots@), snapshot_hps(enemy_snapshots@)),
{
    let f = filter_alive(friend_snapshots);
    let e = filter_alive(enemy_snapshots);
    interleave_turns(tag(true, &f), tag(false, &e))
}

/// The ships afloat: `alive_upto` lists the positions below `n` of the ships
/// afloat, each once, in rising order.
pub proof fn lemma_alive_upto(hps: Seq<u16>, n: nat)
    requires
        n <= hps.len(),
        n <= usize::MAX,
    ensures
        forall|k: int|
            0 <= k < alive_upto(hps, n).len() ==> (#[trigger] alive_upto(hps, n)[k]) < n && hps[alive_upto(
                hps,
                n,
            )[k] as int] > 0,
        forall|p: int, q: int|
            0 <= p < q < alive_upto(hps, n).len() ==> (#[trigger] alive_upto(hps, n)[p])
                < #[trigger] alive_upto(hps, n)[q],
        forall|i: usize| i < n && hps[i as int] > 0 ==> #[trigger] alive_upto(hps, n).contains(i),
        alive_upto(hps, n).len() <= n,
    decreases n,
{
    if n > 0 {
        lemma_alive_upto(hps, (n - 1) as nat);
        let shorter = alive_upto(hps, (n - 1) as nat);
        let whole = alive_upto(hps, n);
        assert forall|k: int| 0 <= k < whole.len() implies {
            &&& (#[trigger] whole[k]) < n
            &&& hps[whole[k] as int] > 0
        } by {
            if k < shorter.len() {
                assert(whole[k] == shorter[k]);
            }
        }
        assert forall|p: int, q: int| 0 <= p < q < whole.len() implies (#[trigger] whole[p])
            < #[trigger] whole[q] by {
            assert(whole[p] == shorter[p]);
            if q < shorter.len() {
                assert(whole[q] == shorter[q]);
            }
        }
        assert forall|i: usize| i < n && hps[i as int] > 0 implies #[trigger] whole.contains(i) by {
            if i < n - 1 {
                assert(shorter.contains(i));
                let k = choose|k: int| 0 <= k < shorter.len() && shorter[k] == i;
                assert(whole[k] == i);
            } else {
                assert(whole[whole.len() - 1] == i);
            }
        }
    }
}

/// Rank of the range of the ship at position `i`.
pub open spec fn rank_at(ships: Seq<ShipView>, i: usize) -> nat {
    ships[i as int].range().rank()
}

/// The ship at `a` fires before the ship at `b` of the same fleet: its range is
/// longer, or the ranges are the same and `a` is the lower position.
pub open spec fn precedes(ships: Seq<ShipView>, a: usize, b: usize) -> bool {
    rank_at(ships, a) > rank_at(ships, b) || (rank_at(ships, a) == rank_at(ships, b) && a < b)
}

/// `order` is the fleet's ships afloat, sorted by falling range in a stable way:
/// it lists positions of ships afloat only, it lists each of them, and of two
/// entries the first precedes the second.
pub open spec fn is_stable_range_order(
    ships: Seq<ShipView>,
    hps: Seq<u16>,
    order: Seq<usize>,
) -> bool {
    &&& forall|k: int| 0 <= k < order.len() ==> (#[trigger] order[k]) < ships.len() && hps[order[k] as int] > 0
    &&& forall|i: usize| i < ships.len() && hps[i as int] > 0 ==> #[trigger] order.contains(i)
    &&& forall|p: int, q: int|
        0 <= p < q < order.len() ==> precedes(ships, #[trigger] order[p], #[trigger] order[q])
}

/// The ship at `position` is one of the first `n`, afloat, and of the range class
/// with the rank `rank`.
pub open spec fn in_class(
    ships: Seq<ShipView>,
    hps: Seq<u16>,
    rank: nat,
    n: nat,
    position: usize,
) -> bool {
    position < n && hps[position as int] > 0 && rank_at(ships, position) == rank
}

/// The ship at `position` is afloat and of a range class with a rank of at most
/// `top`.
pub open spec fn in_classes_upto(
    ships: Seq<ShipView>,
    hps: Seq<u16>,
    top: nat,
    position: usize,
) -> bool {
    position < ships.len() && hps[position as int] > 0 && rank_at(ships, position) <= top
}

/// The ships of one range class: `class_upto` lists the positions below `n` of
/// the ships afloat with that rank, each once, in rising order.
pub proof fn lemma_class_upto(ships: Seq<ShipView>, hps: Seq<u16>, rank: nat, n: nat)
    requires
        n <= usize::MAX,
    ensures
        forall|k: int|
            0 <= k < class_upto(ships, hps, rank, n).len() ==> in_class(
                ships,
                hps,
                rank,
                n,
                #[trigger] class_upto(ships, hps, rank, n)[k],
            ),
        forall|p: int, q: int|
            0 <= p < q < class_upto(ships, hps, rank, n).len()
                ==> (#[trigger] class_upto(ships, hps, rank, n)[p])
                < #[trigger] class_upto(ships, hps, rank, n)[q],
        forall|i: usize|
            i < n && hps[i as int] > 0 && rank_at(ships, i) == rank
                ==> #[trigger] class_upto(ships, hps, rank, n).contains(i),
    decreases n,
{
    let whole = class_upto(ships, hps, rank, n);
    if n > 0 {
        let shorter = class_upto(ships, hps, rank, (n - 1) as nat);
        lemma_class_upto(ships, hps, rank, (n - 1) as nat);
        assert forall|k: int| 0 <= k < whole.len() implies in_class(ships, hps, rank, n, #[trigger] whole[k]) by {
            if k < shorter.len() {
                assert(whole[k] == shorter[k]);
                assert(in_class(ships, hps, rank, (n - 1) as nat, shorter[k]));
            }
        }
        assert forall|p: int, q: int| 0 <= p < q < whole.len() implies (#[trigger] whole[p])
            < #[trigger] whole[q] by {
            assert(whole[p] == shorter[p]);
            if q < shorter.len() {
                assert(whole[q] == shorter[q]);
            }
        }
        assert forall|i: usize|
            i < n && hps[i as int] > 0 && rank_at(ships, i) == rank implies #[trigger] whole.contains(
            i,
        ) by {
            if i < n - 1 {
                assert(shorter.contains(i));
                let k = choose|k: int| 0 <= k < shorter.len() && shorter[k] == i;
                assert(whole[k] == i);
            } else {
                assert(whole[whole.len() - 1] == i);
            }
        }
    }
}

/// The ships of the range classes up to `top`: `by_range_from` lists the
/// positions of the ships afloat with a rank of at most `top`, each once, the
/// first of two entries preceding the second.
pub proof fn lemma_by_range_from(ships: Seq<ShipView>, hps: Seq<u16>, top: nat)
    requires
        ships.len() <= usize::MAX,
    ensures
        forall|k: int|
            0 <= k < by_range_from(ships, hps, top).len() ==> in_classes_upto(
                ships,
                hps,
                top,
                #[trigger] by_range_from(ships, hps, top)[k],
            ),
        forall|p: int, q: int|
            0 <= p < q < by_range_from(ships, hps, top).len() ==> precedes(
                ships,
                #[trigger] by_range_from(ships, hps, top)[p],
                #[trigger] by_range_from(ships, hps, top)[q],
            ),
        forall|i: usize|
            i < ships.len() && hps[i as int] > 0 && rank_at(ships, i) <= top
                ==> #[trigger] by_range_from(ships, hps, top).contains(i),
    decreases top,
{
    let whole = by_range_from(ships, hps, top);
    let head = class_upto(ships, hps, top, ships.len());
    lemma_class_upto(ships, hps, top, ships.len());
    if top > 0 {
        let tail = by_range_from(ships, hps, (top - 1) as nat);
        lemma_by_range_from(ships, hps, (top - 1) as nat);
        assert(whole == head + tail);
        assert forall|k: int| 0 <= k < whole.len() implies in_classes_upto(
            ships,
            hps,
            top,
            #[trigger] whole[k],
        ) by {
            if k < head.len() {
                assert(whole[k] == head[k]);
                assert(in_class(ships, hps, top, ships.len(), head[k]));
            } else {
                assert(whole[k] == tail[k - head.len()]);
                assert(in_classes_upto(ships, hps, (top - 1) as nat, tail[k - head.len()]));
            }
        }
        assert forall|p: int, q: int| 0 <= p < q < whole.len() implies precedes(
            ships,
            #[trigger] whole[p],
            #[trigger] whole[q],
        ) by {
            if q < head.len() {
                assert(whole[p] == head[p]);
                assert(whole[q] == head[q]);
            } else if p < head.len() {
                assert(whole[p] == head[p]);
                assert(whole[q] == tail[q - head.len()]);
            } else {
                assert(whole[p] == tail[p - head.len()]);
                assert(whole[q] == tail[q - head.len()]);
            }
        }
        assert forall|i: usize|
            i < ships.len() && hps[i as int] > 0 && rank_at(ships, i) <= top implies #[trigger] whole.contains(
            i,
        ) by {
            if rank_at(ships, i) == top {
                assert(head.contains(i));
                let k = choose|k: int| 0 <= k < head.len() && head[k] == i;
                assert(whole[k] == i);
            } else {
                assert(tail.contains(i));
                let k = choose|k: int| 0 <= k < tail.len() && tail[k] == i;
                assert(whole[head.len() + k] == i);
            }
        }
    }
}

/// The range order of a fleet is its ships afloat sorted by falling range, ships
/// of the same range in the order of their positions.
pub proof fn lemma_by_range_is_stable_sort(ships: Seq<ShipView>, hps: Seq<u16>)
    requires
        ships.len() == hps.len(),
        ships.len() <= usize::MAX,
    ensures
        is_stable_range_order(ships, hps, by_range(ships, hps)),
{
    lemma_by_range_from(ships, hps, 5);
}

/// On a tie of the best ranges the player's fleet fires first: where both sides
/// have a ship afloat and the player's best range is at least the enemy's, the
/// first turn is that of the player's ship with the best range.
pub proof fn lemma_friend_fires_first_on_tie(
    friend: Seq<ShipView>,
    friend_hp: Seq<u16>,
    enemy: Seq<ShipView>,
    enemy_hp: Seq<u16>,
)
    requires
        by_range(friend, friend_hp).len() > 0,
        by_range(enemy, enemy_hp).len() > 0,
        friend[by_range(friend, friend_hp)[0] as int].range().rank() >= enemy[by_range(
            enemy,
            enemy_hp,
        )[0] as int].range().rank(),
    ensures
        range_order(friend, friend_hp, enemy, enemy_hp).len() > 0,
        range_order(friend, friend_hp, enemy, enemy_hp)[0] == (true, by_range(friend, friend_hp)[0]),
{
    let f = by_range(friend, friend_hp);
    let e = by_range(enemy, enemy_hp);
    assert(friend_leads(friend, f, enemy, e));
    assert(tagged(true, f)[0] == (true, f[0]));
}

/// No item of `a` is an item of `b`.
pub open spec fn disjoint(a: Seq<Turn>, b: Seq<Turn>) -> bool {
    forall|i: int, j: int| 0 <= i < a.len() && 0 <= j < b.len() ==> #[trigger] a[i] != #[trigger] b[j]
}

/// Interleaving keeps every item of both sequences and adds none; it repeats no
/// item where neither sequence repeats one and the two share none.
pub proof fn lemma_interleave(a: Seq<Turn>, b: Seq<Turn>)
    ensures
        interleave(a, b).len() == a.len() + b.len(),
        forall|x: Turn| #[trigger] interleave(a, b).contains(x) <==> a.contains(x) || b.contains(x),
        a.no_duplicates() && b.no_duplicates() && disjoint(a, b) ==> interleave(a, b).no_duplicates(),
    decreases a.len() + b.len(),
{
    let whole = interleave(a, b);
    if a.len() > 0 {
        let rest = a.drop_first();
        let tail = interleave(b, rest);
        lemma_interleave(b, rest);
        assert(whole == seq![a[0]] + tail);
        assert forall|x: Turn| #[trigger] whole.contains(x) <==> a.contains(x) || b.contains(x) by {
            if whole.contains(x) {
                let k = choose|k: int| 0 <= k < whole.len() && whole[k] == x;
                if k == 0 {
                    assert(a[0] == x);
                } else {
                    assert(tail[k - 1] == x);
                    assert(tail.contains(x));
                    if rest.contains(x) {
                        let m = choose|m: int| 0 <= m < rest.len() && rest[m] == x;
                        assert(a[m + 1] == x);
                    }
                }
            }
            if a.contains(x) {
                let m = choose|m: int| 0 <= m < a.len() && a[m] == x;
                if m == 0 {
                    assert(whole[0] == x);
                } else {
                    assert(rest[m - 1] == x);
                    assert(rest.contains(x));
                    assert(tail.contains(x));
                    let k = choose|k: int| 0 <= k < tail.len() && tail[k] == x;
                    assert(whole[k + 1] == x);
                }
            }
            if b.contains(x) {
                assert(tail.contains(x));
                let k = choose|k: int| 0 <= k < tail.len() && tail[k] == x;
                assert(whole[k + 1] == x);
            }
        }
        if a.no_duplicates() && b.no_duplicates() && disjoint(a, b) {
            assert(rest.no_duplicates()) by {
                assert forall|p: int, q: int| 0 <= p < rest.len() && 0 <= q < rest.len() && p != q implies rest[p]
                    != rest[q] by {
                    assert(rest[p] == a[p + 1]);
                    assert(rest[q] == a[q + 1]);
                }
            }
            assert(disjoint(b, rest)) by {
                assert forall|p: int, q: int| 0 <= p < b.len() && 0 <= q < rest.len() implies #[trigger] b[p]
                    != #[trigger] rest[q] by {
                    assert(rest[q] == a[q + 1]);
                }
            }
            assert(tail.no_duplicates());
            assert(!tail.contains(a[0])) by {
                if b.contains(a[0]) {
                    let m = choose|m: int| 0 <= m < b.len() && b[m] == a[0];
                    assert(a[0] != b[m]);
                }
                if rest.contains(a[0]) {
                    let m = choose|m: int| 0 <= m < rest.len() && rest[m] == a[0];
                    assert(a[m + 1] == a[0]);
                }
            }
            assert forall|p: int, q: int| 0 <= p < whole.len() && 0 <= q < whole.len() && p != q implies whole[p]
                != whole[q] by {
                if p > 0 {
                    assert(whole[p] == tail[p - 1]);
                }
                if q > 0 {
                    assert(whole[q] == tail[q - 1]);
                }
                if p == 0 {
                    assert(tail.contains(tail[q - 1]));
                }
                if q == 0 {
                    assert(tail.contains(tail[p - 1]));
                }
            }
        }
    }
}

/// `order` gives each ship afloat one turn and no other ship any: it holds the
/// turn of a side and a position where the ship at that position of that side
/// is afloat, there only, and it holds no turn twice.
pub open spec fn is_roster(order: Seq<Turn>, friend_hp: Seq<u16>, enemy_hp: Seq<u16>) -> bool {
    &&& order.no_duplicates()
    &&& forall|is_friend: bool, i: usize| #[trigger]
        order.contains((is_friend, i)) <==> {
            let hps = if is_friend {
                friend_hp
            } else {
                enemy_hp
            };
            i < hps.len() && hps[i as int] > 0
        }
}

/// The turns of one side repeat no turn where the positions repeat none, and they
/// hold the turn of a position where the positions hold it.
pub proof fn lemma_tagged(is_friend: bool, positions: Seq<usize>)
    ensures
        positions.no_duplicates() ==> tagged(is_friend, positions).no_duplicates(),
        forall|side: bool, i: usize| #[trigger]
            tagged(is_friend, positions).contains((side, i)) <==> side == is_friend && positions.contains(i),
{
    let turns = tagged(is_friend, positions);
    assert forall|side: bool, i: usize| #[trigger]
        turns.contains((side, i)) <==> side == is_friend && positions.contains(i) by {
        if turns.contains((side, i)) {
            let k = choose|k: int| 0 <= k < turns.len() && turns[k] == (side, i);
            assert(positions[k] == i);
        }
        if side == is_friend && positions.contains(i) {
            let k = choose|k: int| 0 <= k < positions.len() && positions[k] == i;
            assert(turns[k] == (side, i));
        }
    }
}

/// In both passes every ship afloat gets one turn, and no other ship gets any.
pub proof fn lemma_every_ship_afloat_has_one_turn(
    friend: Seq<ShipView>,
    friend_hp: Seq<u16>,
    enemy: Seq<ShipView>,
    enemy_hp: Seq<u16>,
)
    requires
        friend.len() == friend_hp.len(),
        enemy.len() == enemy_hp.len(),
        friend.len() <= usize::MAX,
        enemy.len() <= usize::MAX,
    ensures
        is_roster(range_order(friend, friend_hp, enemy, enemy_hp), friend_hp, enemy_hp),
        is_roster(index_order(friend_hp, enemy_hp), friend_hp, enemy_hp),
{
    let f = by_range(friend, friend_hp);
    let e = by_range(enemy, enemy_hp);
    lemma_by_range_is_stable_sort(friend, friend_hp);
    lemma_by_range_is_stable_sort(enemy, enemy_hp);
    lemma_roster_of(f, e, friend_hp, enemy_hp, true);
    lemma_roster_of(f, e, friend_hp, enemy_hp, false);
    let fa = alive_indices(friend_hp);
    let ea = alive_indices(enemy_hp);
    lemma_alive_upto(friend_hp, friend_hp.len());
    lemma_alive_upto(enemy_hp, enemy_hp.len());
    lemma_roster_of(fa, ea, friend_hp, enemy_hp, true);
}

/// Interleaving the turns of two lists of positions, each of which holds the
/// positions of the ships afloat of its side once, gives a roster, whichever
/// side begins.
proof fn lemma_roster_of(
    f: Seq<usize>,
    e: Seq<usize>,
    friend_hp: Seq<u16>,
    enemy_hp: Seq<u16>,
    friend_first: bool,
)
    requires
        forall|p: int, q: int| 0 <= p < q < f.len() ==> #[trigger] f[p] != #[trigger] f[q],
        forall|p: int, q: int| 0 <= p < q < e.len() ==> #[trigger] e[p] != #[trigger] e[q],
        forall|k: int| 0 <= k < f.len() ==> (#[trigger] f[k]) < friend_hp.len() && friend_hp[f[k] as int] > 0,
        forall|k: int| 0 <= k < e.len() ==> (#[trigger] e[k]) < enemy_hp.len() && enemy_hp[e[k] as int] > 0,
        forall|i: usize| i < friend_hp.len() && friend_hp[i as int] > 0 ==> #[trigger] f.contains(i),
        forall|i: usize| i < enemy_hp.len() && enemy_hp[i as int] > 0 ==> #[trigger] e.contains(i),
    ensures
        friend_first ==> is_roster(interleave(tagged(true, f), tagged(false, e)), friend_hp, enemy_hp),
        !friend_first ==> is_roster(interleave(tagged(false, e), tagged(true, f)), friend_hp, enemy_hp),
{
    let ft = tagged(true, f);
    let et = tagged(false, e);
    lemma_tagged(true, f);
    lemma_tagged(false, e);
    assert(f.no_duplicates()) by {
        assert forall|p: int, q: int| 0 <= p < f.len() && 0 <= q < f.len() && p != q implies f[p] != f[q] by {
            if p < q {
                assert(f[p] != f[q]);
            } else {
                assert(f[q] != f[p]);
            }
        }
    }
    assert(e.no_duplicates()) by {
        assert forall|p: int, q: int| 0 <= p < e.len() && 0 <= q < e.len() && p != q implies e[p] != e[q] by {
            if p < q {
                assert(e[p] != e[q]);
            } else {
                assert(e[q] != e[p]);
            }
        }
    }
    assert(disjoint(ft, et));
    assert(disjoint(et, ft));
    let order = if friend_first {
        interleave(ft, et)
    } else {
        interleave(et, ft)
    };
    if friend_first {
        lemma_interleave(ft, et);
    } else {
        lemma_interleave(et, ft);
    }
    assert forall|is_friend: bool, i: usize| #[trigger]
        order.contains((is_friend, i)) <==> {
            let hps = if is_friend {
                friend_hp
            } else {
                enemy_hp
            };
            i < hps.len() && hps[i as int] > 0
        } by {
        if is_friend {
            assert(ft.contains((is_friend, i)) <==> f.contains(i));
            assert(!et.contains((is_friend, i)));
            if f.contains(i) {
                let k = choose|k: int| 0 <= k < f.len() && f[k] == i;
                assert(f[k] < friend_hp.len());
            }
        } else {
            assert(et.contains((is_friend, i)) <==> e.contains(i));
            assert(!ft.contains((is_friend, i)));
            if e.contains(i) {
                let k = choose|k: int| 0 <= k < e.len() && e[k] == i;
                assert(e[k] < enemy_hp.len());
            }
        }
    }
}

} // verus!
