//! The entity pool and the passes that run over it once a frame: free,
//! spawn, update, collide, draw; and the director that changes scenes.

use vstd::prelude::*;
use crate::actor::{spawn_actor, spawn_of, Actor, Entity};
use crate::frame::{Frame, FrameCommand};
use crate::game_obj::{GameObj, ResponseType};
use crate::global_data::{GlobalData, GlobalView, GAMEMODE};
use crate::input::InputSnapshot;
use crate::maps::{grid_of, MapSources};
use crate::scene::{background_of, get_bg_val, get_layout, layout_of, lemma_layout_small, SCENES};

verus! {

/// The number of entities the pool can hold.
pub const POOL_CAPACITY: usize = 128;

/// Every entity of `pool` is valid.
pub open spec fn all_valid(pool: Seq<Entity>) -> bool {
    forall|i: int| 0 <= i < pool.len() ==> (#[trigger] pool[i]).inv()
}

/// The first place at or after `from` whose entity asks to be removed, or
/// the length of `pool` if there is none.
pub open spec fn first_to_free(pool: Seq<Entity>, from: int) -> int
    decreases pool.len() - from,
{
    if from >= pool.len() {
        pool.len() as int
    } else if pool[from].spec_check_to_free() {
        from
    } else {
        first_to_free(pool, from + 1)
    }
}

/// The pool after the free pass: as long as some entity asks to be
/// removed, the first such entity is replaced by the last entity of the
/// pool, which thereby becomes one shorter.
pub open spec fn freed(pool: Seq<Entity>) -> Seq<Entity>
    decreases pool.len(),
{
    let i = first_to_free(pool, 0);
    if 0 <= i < pool.len() {
        freed(pool.update(i, pool.last()).drop_last())
    } else {
        pool
    }
}

/// `first_to_free` finds the least place at or after `from` whose entity
/// asks to be removed.
pub proof fn lemma_first_to_free(pool: Seq<Entity>, from: int)
    requires
        0 <= from <= pool.len(),
    ensures
        from <= first_to_free(pool, from) <= pool.len(),
        first_to_free(pool, from) < pool.len() ==> pool[first_to_free(
            pool,
            from,
        )].spec_check_to_free(),
        forall|k: int| from <= k < first_to_free(pool, from) ==> !(#[trigger] pool[k]).spec_check_to_free(),
    decreases pool.len() - from,
{
    if from < pool.len() && !pool[from].spec_check_to_free() {
        lemma_first_to_free(pool, from + 1);
    }
}

/// Replacing an entity by the last one and dropping the last takes
/// exactly that entity out of the pool.
proof fn lemma_swap_remove_takes_one(pool: Seq<Entity>, i: int)
    requires
        0 <= i < pool.len(),
    ensures
        pool.update(i, pool.last()).drop_last().to_multiset() == pool.to_multiset().remove(pool[i]),
{
    broadcast use vstd::multiset::group_multiset_axioms;

    let swapped = pool.update(i, pool.last());
    vstd::seq_lib::to_multiset_update(pool, i, pool.last());
    vstd::seq_lib::to_multiset_remove(swapped, pool.len() - 1);
    assert(swapped.remove(pool.len() - 1) =~= swapped.drop_last());
    assert(swapped[pool.len() - 1] == pool.last());
    assert(swapped.drop_last().to_multiset() =~= pool.to_multiset().remove(pool[i]));
}

/// The free pass removes the entities that ask to be removed and no
/// others: an entity that asks for it is not in the pool afterwards, and
/// any other is in it as often as before.
pub proof fn lemma_freed_keeps_the_rest(pool: Seq<Entity>, entity: Entity)
    ensures
        freed(pool).to_multiset().count(entity) == if entity.spec_check_to_free() {
            0
        } else {
            pool.to_multiset().count(entity)
        },
    decreases pool.len(),
{
    broadcast use vstd::multiset::group_multiset_axioms;

    lemma_first_to_free(pool, 0);
    let i = first_to_free(pool, 0);
    if i < pool.len() {
        let rest = pool.update(i, pool.last()).drop_last();
        lemma_swap_remove_takes_one(pool, i);
        lemma_freed_keeps_the_rest(rest, entity);
    } else {
        if entity.spec_check_to_free() && pool.to_multiset().count(entity) > 0 {
            vstd::seq_lib::to_multiset_contains(pool, entity);
            let k = choose|k: int| 0 <= k < pool.len() && pool[k] == entity;
            assert(!pool[k].spec_check_to_free());
        }
    }
}

/// Removes every entity that asks to be removed. Each removal puts the
/// last entity in the place of the removed one, and the scan starts over.
/// Afterwards no entity of the pool asks to be removed.
pub fn update_free(obj_box: &mut Vec<Entity>)
    ensures
        final(obj_box)@ == freed(old(obj_box)@),
        forall|i: int| 0 <= i < final(obj_box)@.len() ==> !(#[trigger] final(obj_box)@[i]).spec_check_to_free(),
        all_valid(old(obj_box)@) ==> all_valid(final(obj_box)@),
        final(obj_box)@.len() <= old(obj_box)@.len(),
{
    let mut found_free: bool = false;
    let mut iter_count: usize = 0;
    loop
        invariant_except_break
            !found_free,
            iter_count == 0,
        invariant
            freed(obj_box@) == freed(old(obj_box)@),
            all_valid(old(obj_box)@) ==> all_valid(obj_box@),
            obj_box@.len() <= old(obj_box)@.len(),
        ensures
            obj_box@ == freed(old(obj_box)@),
            forall|i: int| 0 <= i < obj_box@.len() ==> !(#[trigger] obj_box@[i]).spec_check_to_free(),
            all_valid(old(obj_box)@) ==> all_valid(obj_box@),
            obj_box@.len() <= old(obj_box)@.len(),
        decreases obj_box@.len(),
    {
        while iter_count < obj_box.len()
            invariant_except_break
                !found_free,
            invariant
                iter_count <= obj_box@.len(),
                first_to_free(obj_box@, iter_count as int) == first_to_free(obj_box@, 0),
                forall|k: int| 0 <= k < iter_count ==> !(#[trigger] obj_box@[k]).spec_check_to_free(),
            ensures
                found_free ==> iter_count < obj_box@.len() && first_to_free(obj_box@, 0) == iter_count,
                !found_free ==> iter_count == obj_box@.len() && first_to_free(obj_box@, 0)
                    == obj_box@.len(),
            decreases obj_box@.len() - iter_count,
        {
            if obj_box[iter_count].check_to_free() == true {
                found_free = true;
                break ;
            }
            iter_count += 1;
        }
        if found_free == true {
            obj_box.swap_remove(iter_count);
            found_free = false;
            iter_count = 0;
            continue ;
        }
        break ;
    }
}

/// The first place at or after `from` whose entity may be evicted, or the
/// length of `pool` if there is none.
pub open spec fn first_cleanup(pool: Seq<Entity>, from: int) -> int
    decreases pool.len() - from,
{
    if from >= pool.len() {
        pool.len() as int
    } else if pool[from].spec_can_cleanup() {
        from
    } else {
        first_cleanup(pool, from + 1)
    }
}

/// `first_cleanup` finds the least place at or after `from` whose entity
/// may be evicted.
pub proof fn lemma_first_cleanup(pool: Seq<Entity>, from: int)
    requires
        0 <= from <= pool.len(),
    ensures
        from <= first_cleanup(pool, from) <= pool.len(),
        first_cleanup(pool, from) < pool.len() ==> pool[first_cleanup(pool, from)].spec_can_cleanup(),
        forall|k: int| from <= k < first_cleanup(pool, from) ==> !(#[trigger] pool[k]).spec_can_cleanup(),
    decreases pool.len() - from,
{
    if from < pool.len() && !pool[from].spec_can_cleanup() {
        lemma_first_cleanup(pool, from + 1);
    }
}

/// Whether `pool` has or can make room for one more entity: it is below
/// capacity, or one of its entities may be evicted.
pub open spec fn slot_found(pool: Seq<Entity>) -> bool {
    pool.len() < POOL_CAPACITY || first_cleanup(pool, 0) < pool.len()
}

/// The pool after room was sought: unchanged below capacity; at capacity
/// without the first entity that may be evicted, if there is one.
pub open spec fn after_slot(pool: Seq<Entity>) -> Seq<Entity> {
    if pool.len() < POOL_CAPACITY {
        pool
    } else if first_cleanup(pool, 0) < pool.len() {
        pool.remove(first_cleanup(pool, 0))
    } else {
        pool
    }
}

/// Finds or makes room for one more entity. Below capacity there is
/// room. At capacity the first entity that may be evicted is removed, the
/// others keeping their order; if there is none, there is no room.
pub fn find_obj_slot(obj_box: &mut Vec<Entity>) -> (room: bool)
    ensures
        room == slot_found(old(obj_box)@),
        final(obj_box)@ == after_slot(old(obj_box)@),
{
    if obj_box.len() < 128 {
        true
    } else {
        let mut can_spawn = false;
        let mut iter_count: usize = 0;
        while iter_count < obj_box.len()
            invariant_except_break
                !can_spawn,
            invariant
                iter_count <= obj_box@.len(),
                obj_box@ == old(obj_box)@,
                first_cleanup(obj_box@, iter_count as int) == first_cleanup(obj_box@, 0),
            ensures
                obj_box@ == old(obj_box)@,
                can_spawn ==> iter_count < obj_box@.len() && first_cleanup(obj_box@, 0) == iter_count,
                !can_spawn ==> first_cleanup(obj_box@, 0) == obj_box@.len(),
            decreases obj_box@.len() - iter_count,
        {
            if obj_box[iter_count].can_cleanup() {
                can_spawn = true;
                break ;
            } else {
                iter_count += 1;
            }
        }
        if can_spawn {
            obj_box.remove(iter_count);
        }
        can_spawn
    }
}

/// The pool and the shared state after the first `n` entities were
/// updated in pool order: each with `update` if it is on screen, with
/// `simple_update` if it is not.
pub open spec fn updated_upto(pool: Seq<Entity>, globals: GlobalView, n: int) -> (
    Seq<Entity>,
    GlobalView,
)
    decreases n,
{
    if n <= 0 {
        (pool, globals)
    } else {
        let (before, shared) = updated_upto(pool, globals, n - 1);
        let entity = before[n - 1];
        let (after, left) = if entity.spec_on_screen() {
            entity.updated(shared)
        } else {
            entity.simple_updated(shared)
        };
        (before.update(n - 1, after), left)
    }
}

/// Updates every entity of the pool, in pool order.
pub fn update_objs(obj_box: &mut Vec<Entity>, globals: &mut GlobalData)
    requires
        all_valid(old(obj_box)@),
        old(globals)@.wf(),
        old(globals)@.camera_room(old(obj_box)@.len() as int),
    ensures
        (final(obj_box)@, final(globals)@) == updated_upto(
            old(obj_box)@,
            old(globals)@,
            old(obj_box)@.len() as int,
        ),
        final(obj_box)@.len() == old(obj_box)@.len(),
        all_valid(final(obj_box)@),
        final(globals)@.wf(),
        final(globals)@.camera_room(0),
{
    let mut i: usize = 0;
    while i < obj_box.len()
        invariant
            i <= obj_box@.len(),
            obj_box@.len() == old(obj_box)@.len(),
            (obj_box@, globals@) == updated_upto(old(obj_box)@, old(globals)@, i as int),
            all_valid(obj_box@),
            globals@.wf(),
            globals@.camera_room(obj_box@.len() - i),
        decreases obj_box@.len() - i,
    {
        let mut obj = obj_box[i];
        if obj.on_screen() {
            obj.update(globals);
        } else {
            obj.simple_update(globals);
        }
        obj_box.set(i, obj);
        i += 1;
    }
}

/// What drawing the first `n` entities asks of the renderer: what each
/// entity on screen asks, in pool order.
pub open spec fn drawn_upto(pool: Seq<Entity>, n: int) -> Seq<FrameCommand>
    decreases n,
{
    if n <= 0 {
        Seq::empty()
    } else if pool[n - 1].spec_on_screen() {
        drawn_upto(pool, n - 1) + pool[n - 1].drawn()
    } else {
        drawn_upto(pool, n - 1)
    }
}

/// Draws every entity that is on screen, in pool order.
pub fn draw_objs(obj_box: &Vec<Entity>, frame: &mut Frame)
    ensures
        final(frame).commands@ == old(frame).commands@ + drawn_upto(obj_box@, obj_box@.len() as int),
{
    let mut i: usize = 0;
    assert(frame.commands@ =~= old(frame).commands@ + drawn_upto(obj_box@, 0));
    while i < obj_box.len()
        invariant
            i <= obj_box@.len(),
            frame.commands@ == old(frame).commands@ + drawn_upto(obj_box@, i as int),
        decreases obj_box@.len() - i,
    {
        let obj = &obj_box[i];
        if obj.on_screen() {
            obj.draw(frame);
        }
        assert(frame.commands@ =~= old(frame).commands@ + drawn_upto(obj_box@, i + 1));
        i += 1;
    }
}

/// The places of the entities that are on screen among the first `n`, in
/// pool order.
pub open spec fn on_screen_upto(pool: Seq<Entity>, n: int) -> Seq<int>
    decreases n,
{
    if n <= 0 {
        Seq::empty()
    } else if pool[n - 1].spec_on_screen() {
        on_screen_upto(pool, n - 1).push(n - 1)
    } else {
        on_screen_upto(pool, n - 1)
    }
}

/// The checks that the entity at `active[cur]` makes against the first
/// `upto` active entities: one against each but itself, in order.
pub open spec fn row_pairs(active: Seq<int>, cur: int, upto: int) -> Seq<(int, int)>
    decreases upto,
{
    if upto <= 0 {
        Seq::empty()
    } else if cur != upto - 1 {
        row_pairs(active, cur, upto - 1).push((active[cur], active[upto - 1]))
    } else {
        row_pairs(active, cur, upto - 1)
    }
}

/// The checks that the first `rows` active entities make, each against
/// all the others.
pub open spec fn all_pairs(active: Seq<int>, rows: int) -> Seq<(int, int)>
    decreases rows,
{
    if rows <= 0 {
        Seq::empty()
    } else {
        all_pairs(active, rows - 1) + row_pairs(active, rows - 1, active.len() as int)
    }
}

/// The checks of one pairwise pass over `pool`, in the order they are
/// made. A pair `(a, b)` stands for the entity at place `a` checking
/// itself against the entity at place `b`.
pub open spec fn pair_schedule(pool: Seq<Entity>) -> Seq<(int, int)> {
    let active = on_screen_upto(pool, pool.len() as int);
    all_pairs(active, active.len() as int)
}

/// The pool after the entity at `a` checked itself against the entity at
/// `b`: the first has reacted for itself, and the second has been told
/// the answer unless the answer was `NONE`.
pub open spec fn collide_pair(pool: Seq<Entity>, a: int, b: int) -> Seq<Entity> {
    let (asking, reply) = pool[a].collided(pool[b].spec_collider(), pool[b].spec_response_type());
    let checked = pool.update(a, asking);
    if reply != ResponseType::NONE {
        checked.update(b, checked[b].responded(reply))
    } else {
        checked
    }
}

/// The pool after the checks `pairs` were made in order.
pub open spec fn run_pairs(pool: Seq<Entity>, pairs: Seq<(int, int)>) -> Seq<Entity>
    decreases pairs.len(),
{
    if pairs.len() == 0 {
        pool
    } else {
        collide_pair(run_pairs(pool, pairs.drop_last()), pairs.last().0, pairs.last().1)
    }
}

/// The places that `on_screen_upto` lists lie below `n` and increase.
pub proof fn lemma_on_screen_upto(pool: Seq<Entity>, n: int)
    requires
        0 <= n <= pool.len(),
    ensures
        on_screen_upto(pool, n).len() <= n,
        forall|k: int|
            0 <= k < on_screen_upto(pool, n).len() ==> 0 <= (#[trigger] on_screen_upto(pool, n)[k]) < n,
        forall|j: int, k: int|
            0 <= j < k < on_screen_upto(pool, n).len() ==> on_screen_upto(pool, n)[j] < on_screen_upto(
                pool,
                n,
            )[k],
        forall|i: int|
            0 <= i < n && (#[trigger] pool[i]).spec_on_screen() ==> on_screen_upto(pool, n).contains(i),
    decreases n,
{
    if n > 0 {
        lemma_on_screen_upto(pool, n - 1);
        let before = on_screen_upto(pool, n - 1);
        let now = on_screen_upto(pool, n);
        assert forall|i: int| 0 <= i < n && (#[trigger] pool[i]).spec_on_screen() implies now.contains(
            i,
        ) by {
            if i < n - 1 {
                let k = choose|k: int| 0 <= k < before.len() && before[k] == i;
                assert(now[k] == i);
            } else {
                assert(now[now.len() - 1] == i);
            }
        }
    }
}

/// How often `pair` stands in `pairs`.
pub open spec fn occurrences(pairs: Seq<(int, int)>, pair: (int, int)) -> nat
    decreases pairs.len(),
{
    if pairs.len() == 0 {
        0
    } else if pairs.last() == pair {
        occurrences(pairs.drop_last(), pair) + 1
    } else {
        occurrences(pairs.drop_last(), pair)
    }
}

proof fn lemma_occurrences_concat(first: Seq<(int, int)>, second: Seq<(int, int)>, pair: (int, int))
    ensures
        occurrences(first + second, pair) == occurrences(first, pair) + occurrences(second, pair),
    decreases second.len(),
{
    if second.len() == 0 {
        assert(first + second =~= first);
    } else {
        assert((first + second).drop_last() =~= first + second.drop_last());
        assert((first + second).last() == second.last());
        lemma_occurrences_concat(first, second.drop_last(), pair);
    }
}

/// The places in `active` increase.
pub open spec fn increasing(active: Seq<int>) -> bool {
    forall|j: int, k: int| 0 <= j < k < active.len() ==> active[j] < active[k]
}

proof fn lemma_row_occurrences(active: Seq<int>, cur: int, upto: int, p: int, q: int)
    requires
        increasing(active),
        0 <= cur < active.len(),
        0 <= upto <= active.len(),
        0 <= p < active.len(),
        0 <= q < active.len(),
        p != q,
    ensures
        occurrences(row_pairs(active, cur, upto), (active[p], active[q])) == if cur == p && q < upto {
            1nat
        } else {
            0nat
        },
    decreases upto,
{
    if upto > 0 {
        lemma_row_occurrences(active, cur, upto - 1, p, q);
        if cur != upto - 1 {
            let row = row_pairs(active, cur, upto);
            let before = row_pairs(active, cur, upto - 1);
            assert(row.drop_last() =~= before);
            assert(row.last() == (active[cur], active[upto - 1]));
            if cur != p {
                assert(active[cur] != active[p]);
            }
            if upto - 1 != q {
                assert(active[upto - 1] != active[q]);
            }
        }
    }
}

proof fn lemma_all_occurrences(active: Seq<int>, rows: int, p: int, q: int)
    requires
        increasing(active),
        0 <= rows <= active.len(),
        0 <= p < active.len(),
        0 <= q < active.len(),
        p != q,
    ensures
        occurrences(all_pairs(active, rows), (active[p], active[q])) == if p < rows {
            1nat
        } else {
            0nat
        },
    decreases rows,
{
    if rows > 0 {
        lemma_all_occurrences(active, rows - 1, p, q);
        lemma_row_occurrences(active, rows - 1, active.len() as int, p, q);
        lemma_occurrences_concat(
            all_pairs(active, rows - 1),
            row_pairs(active, rows - 1, active.len() as int),
            (active[p], active[q]),
        );
    }
}

/// In one pairwise pass, two different entities that are both on screen
/// check each other exactly once in each direction.
pub proof fn lemma_each_pair_checked_once(pool: Seq<Entity>, a: int, b: int)
    requires
        0 <= a < pool.len(),
        0 <= b < pool.len(),
        a != b,
        pool[a].spec_on_screen(),
        pool[b].spec_on_screen(),
    ensures
        occurrences(pair_schedule(pool), (a, b)) == 1,
        occurrences(pair_schedule(pool), (b, a)) == 1,
{
    let active = on_screen_upto(pool, pool.len() as int);
    lemma_on_screen_upto(pool, pool.len() as int);
    let p = choose|k: int| 0 <= k < active.len() && active[k] == a;
    let q = choose|k: int| 0 <= k < active.len() && active[k] == b;
    lemma_all_occurrences(active, active.len() as int, p, q);
    lemma_all_occurrences(active, active.len() as int, q, p);
}

/// Every check of a pairwise pass is between two different entities that
/// are both on screen.
pub proof fn lemma_checks_among_on_screen(pool: Seq<Entity>, k: int)
    requires
        0 <= k < pair_schedule(pool).len(),
    ensures
        0 <= pair_schedule(pool)[k].0 < pool.len(),
        0 <= pair_schedule(pool)[k].1 < pool.len(),
        pair_schedule(pool)[k].0 != pair_schedule(pool)[k].1,
        pool[pair_schedule(pool)[k].0].spec_on_screen(),
        pool[pair_schedule(pool)[k].1].spec_on_screen(),
{
    let active = on_screen_upto(pool, pool.len() as int);
    lemma_on_screen_upto(pool, pool.len() as int);
    lemma_on_screen_are_on_screen(pool, pool.len() as int);
    lemma_all_pairs_from(active, active.len() as int, k);
}

proof fn lemma_on_screen_are_on_screen(pool: Seq<Entity>, n: int)
    requires
        0 <= n <= pool.len(),
    ensures
        forall|k: int|
            0 <= k < on_screen_upto(pool, n).len() ==> 0 <= (#[trigger] on_screen_upto(pool, n)[k]) < n
                && pool[on_screen_upto(pool, n)[k]].spec_on_screen(),
    decreases n,
{
    if n > 0 {
        lemma_on_screen_are_on_screen(pool, n - 1);
        let before = on_screen_upto(pool, n - 1);
        let now = on_screen_upto(pool, n);
        assert forall|k: int| 0 <= k < now.len() implies 0 <= (#[trigger] now[k]) < n
            && pool[now[k]].spec_on_screen() by {
            if k < before.len() {
                assert(now[k] == before[k]);
            } else {
                assert(now[k] == n - 1);
            }
        }
    }
}

proof fn lemma_row_pairs_from(active: Seq<int>, cur: int, upto: int, k: int)
    requires
        0 <= cur < active.len(),
        0 <= upto <= active.len(),
        0 <= k < row_pairs(active, cur, upto).len(),
    ensures
        exists|j: int|
            0 <= j < upto && j != cur && row_pairs(active, cur, upto)[k] == (active[cur], #[trigger] active[j]),
    decreases upto,
{
    if upto > 0 {
        if cur != upto - 1 && k == row_pairs(active, cur, upto).len() - 1 {
            assert(row_pairs(active, cur, upto)[k] == (active[cur], active[upto - 1]));
        } else {
            lemma_row_pairs_from(active, cur, upto - 1, k);
        }
    }
}

proof fn lemma_all_pairs_from(active: Seq<int>, rows: int, k: int)
    requires
        0 <= rows <= active.len(),
        0 <= k < all_pairs(active, rows).len(),
    ensures
        exists|i: int, j: int|
            0 <= i < rows && 0 <= j < active.len() && i != j && all_pairs(active, rows)[k] == (
                #[trigger] active[i],
                #[trigger] active[j],
            ),
    decreases rows,
{
    if rows > 0 {
        let before = all_pairs(active, rows - 1);
        if k < before.len() {
            lemma_all_pairs_from(active, rows - 1, k);
        } else {
            lemma_row_pairs_from(active, rows - 1, active.len() as int, k - before.len());
            let j = choose|j: int|
                0 <= j < active.len() && j != rows - 1 && row_pairs(
                    active,
                    rows - 1,
                    active.len() as int,
                )[k - before.len()] == (active[rows - 1], #[trigger] active[j]);
            assert(all_pairs(active, rows)[k] == (active[rows - 1], active[j]));
        }
    }
}

/// The pairwise collision pass. Every entity that is on screen when the
/// pass begins checks itself against every other such entity, in pool
/// order; an answer other than `NONE` is handed to the entity that was
/// checked against.
pub fn update_collisions(obj_box: &mut Vec<Entity>)
    requires
        all_valid(old(obj_box)@),
    ensures
        final(obj_box)@ == run_pairs(old(obj_box)@, pair_schedule(old(obj_box)@)),
        final(obj_box)@.len() == old(obj_box)@.len(),
        all_valid(final(obj_box)@),
{
    let ghost start = obj_box@;
    let mut active_objs: Vec<usize> = Vec::new();
    let mut i: usize = 0;
    while i < obj_box.len()
        invariant
            i <= obj_box@.len(),
            obj_box@ == start,
            active_objs@.len() == on_screen_upto(start, i as int).len(),
            forall|k: int|
                0 <= k < active_objs@.len() ==> (#[trigger] active_objs@[k]) == on_screen_upto(
                    start,
                    i as int,
                )[k],
        decreases obj_box@.len() - i,
    {
        if obj_box[i].on_screen() {
            active_objs.push(i);
        }
        i += 1;
    }
    let ghost active = on_screen_upto(start, start.len() as int);
    proof {
        lemma_on_screen_upto(start, start.len() as int);
    }
    let len = active_objs.len();
    if len < 2 {
        proof {
            reveal_with_fuel(all_pairs, 2);
            reveal_with_fuel(row_pairs, 2);
            assert(all_pairs(active, len as int) =~= Seq::<(int, int)>::empty());
        }
        return ;
    }
    let mut current_block: usize = 0;
    while current_block < len
        invariant
            current_block <= len,
            len == active.len(),
            active == on_screen_upto(start, start.len() as int),
            obj_box@.len() == start.len(),
            forall|k: int| 0 <= k < active.len() ==> (#[trigger] active_objs@[k]) == active[k],
            active_objs@.len() == len,
            forall|k: int| 0 <= k < active.len() ==> 0 <= (#[trigger] active[k]) < start.len(),
            forall|j: int, k: int| 0 <= j < k < active.len() ==> active[j] < active[k],
            all_valid(obj_box@),
            obj_box@ == run_pairs(start, all_pairs(active, current_block as int)),
        decreases len - current_block,
    {
        let mut next_block: usize = 0;
        assert(all_pairs(active, current_block as int) + row_pairs(active, current_block as int, 0)
            =~= all_pairs(active, current_block as int));
        while next_block < len
            invariant
                current_block < len,
                next_block <= len,
                len == active.len(),
                obj_box@.len() == start.len(),
                forall|k: int| 0 <= k < active.len() ==> (#[trigger] active_objs@[k]) == active[k],
                active_objs@.len() == len,
                forall|k: int| 0 <= k < active.len() ==> 0 <= (#[trigger] active[k]) < start.len(),
                forall|j: int, k: int| 0 <= j < k < active.len() ==> active[j] < active[k],
                all_valid(obj_box@),
                obj_box@ == run_pairs(
                    start,
                    all_pairs(active, current_block as int) + row_pairs(
                        active,
                        current_block as int,
                        next_block as int,
                    ),
                ),
            decreases len - next_block,
        {
            let ghost done = all_pairs(active, current_block as int) + row_pairs(
                active,
                current_block as int,
                next_block as int,
            );
            if current_block != next_block {
                let asking_at = active_objs[current_block];
                let other_at = active_objs[next_block];
                assert(asking_at == active[current_block as int]);
                assert(other_at == active[next_block as int]);
                assert(asking_at != other_at);
                let ghost before = obj_box@;
                let other = obj_box[other_at];
                let other_collider = other.get_collider();
                let other_response = other.check_response_type();
                let mut asking = obj_box[asking_at];
                let reply = asking.check_collision(other_collider, other_response);
                obj_box.set(asking_at, asking);
                match reply {
                    ResponseType::NONE => {},
                    _ => {
                        let mut told = obj_box[other_at];
                        told.handle_response(reply);
                        obj_box.set(other_at, told);
                    },
                }
                proof {
                    let pair = (asking_at as int, other_at as int);
                    assert(obj_box@ == collide_pair(before, pair.0, pair.1));
                    let next = done.push(pair);
                    assert(next.drop_last() =~= done);
                    assert(next.last() == pair);
                    assert(all_pairs(active, current_block as int) + row_pairs(
                        active,
                        current_block as int,
                        next_block + 1,
                    ) =~= next);
                }
            }
            next_block += 1;
        }
        current_block += 1;
    }
}

/// The entity after the level was asked about its collider: told `LEVEL`
/// if the collider hits a solid tile, left alone otherwise or if it has no
/// collider.
pub open spec fn level_checked(entity: Entity, globals: GlobalView) -> Entity {
    match entity.spec_collider() {
        Some(collider) => if globals.level_response(collider) == ResponseType::LEVEL {
            entity.responded(ResponseType::LEVEL)
        } else {
            entity
        },
        None => entity,
    }
}

/// The tile collision pass: every entity with a collider that hits a
/// solid tile of the level is told `LEVEL`.
pub fn update_level_collisions(obj_box: &mut Vec<Entity>, globals: &GlobalData)
    requires
        all_valid(old(obj_box)@),
        globals@.wf(),
    ensures
        final(obj_box)@.len() == old(obj_box)@.len(),
        forall|i: int|
            0 <= i < old(obj_box)@.len() ==> (#[trigger] final(obj_box)@[i]) == level_checked(
                old(obj_box)@[i],
                globals@,
            ),
        all_valid(final(obj_box)@),
{
    let mut i: usize = 0;
    while i < obj_box.len()
        invariant
            i <= obj_box@.len(),
            obj_box@.len() == old(obj_box)@.len(),
            globals@.wf(),
            all_valid(obj_box@),
            forall|k: int|
                0 <= k < i ==> (#[trigger] obj_box@[k]) == level_checked(old(obj_box)@[k], globals@),
            forall|k: int| i <= k < obj_box@.len() ==> (#[trigger] obj_box@[k]) == old(obj_box)@[k],
        decreases obj_box@.len() - i,
    {
        let mut obj = obj_box[i];
        match obj.get_collider() {
            Some(collider) => {
                match globals.check_level_col(collider) {
                    ResponseType::LEVEL => {
                        obj.handle_response(ResponseType::LEVEL);
                        obj_box.set(i, obj);
                    },
                    _ => {},
                }
            },
            None => {},
        }
        i += 1;
    }
}

/// Why an entity was not admitted to the pool.
#[derive(Clone, Copy, PartialEq, Eq, Debug, Structural)]
pub enum PoolError {
    /// The pool is at capacity and none of its entities may be evicted.
    PoolFull,
}

impl PoolError {
    /// The line to log for this error.
    pub fn message(&self) -> (text: &'static str)
        ensures
            text@ == "obj_box is full! Skipping added object"@,
    {
        match self {
            PoolError::PoolFull => "obj_box is full! Skipping added object",
        }
    }
}

/// The pool after `entity` asked for admission: if there is or can be
/// made room, the entity stands last, readied; if not, nothing changed.
pub open spec fn admitted_one(pool: Seq<Entity>, entity: Entity) -> Seq<Entity> {
    if slot_found(pool) {
        after_slot(pool).push(entity.readied())
    } else {
        pool
    }
}

/// Admission never takes the pool beyond its capacity. Below capacity the
/// entity is always admitted. At capacity it is admitted if and only if
/// some entity of the pool may be evicted, and then exactly one entity
/// leaves: the first that may be evicted.
pub proof fn lemma_admission(pool: Seq<Entity>, entity: Entity)
    requires
        pool.len() <= POOL_CAPACITY,
    ensures
        admitted_one(pool, entity).len() <= POOL_CAPACITY,
        pool.len() < POOL_CAPACITY ==> admitted_one(pool, entity) == pool.push(entity.readied()),
        pool.len() == POOL_CAPACITY ==> (slot_found(pool) <==> exists|i: int|
            0 <= i < pool.len() && (#[trigger] pool[i]).spec_can_cleanup()),
        pool.len() == POOL_CAPACITY && slot_found(pool) ==> {
            let evicted = first_cleanup(pool, 0);
            &&& 0 <= evicted < pool.len()
            &&& pool[evicted].spec_can_cleanup()
            &&& forall|j: int| 0 <= j < evicted ==> !(#[trigger] pool[j]).spec_can_cleanup()
            &&& admitted_one(pool, entity) == pool.remove(evicted).push(entity.readied())
            &&& admitted_one(pool, entity).to_multiset() == pool.to_multiset().remove(
                pool[evicted],
            ).insert(entity.readied())
        },
        !slot_found(pool) ==> admitted_one(pool, entity) == pool,
{
    lemma_first_cleanup(pool, 0);
    if pool.len() == POOL_CAPACITY && slot_found(pool) {
        let evicted = first_cleanup(pool, 0);
        vstd::seq_lib::to_multiset_remove(pool, evicted);
        vstd::seq_lib::to_multiset_build(pool.remove(evicted), entity.readied());
    }
}

/// The pool after the first `n` descriptors of `queue` were constructed
/// and asked for admission, in order.
pub open spec fn admitted_upto(pool: Seq<Entity>, queue: Seq<Actor>, n: int) -> Seq<Entity>
    decreases n,
{
    if n <= 0 {
        pool
    } else {
        admitted_one(admitted_upto(pool, queue, n - 1), spawn_of(queue[n - 1]))
    }
}

/// Those of the first `n` descriptors of `queue` that were refused, in
/// order.
pub open spec fn refused_upto(pool: Seq<Entity>, queue: Seq<Actor>, n: int) -> Seq<Actor>
    decreases n,
{
    if n <= 0 {
        Seq::empty()
    } else if slot_found(admitted_upto(pool, queue, n - 1)) {
        refused_upto(pool, queue, n - 1)
    } else {
        refused_upto(pool, queue, n - 1).push(queue[n - 1])
    }
}

/// While the pool has room for all of them, the first `n` descriptors of
/// `queue` are all admitted, in order, behind the entities already there,
/// and none is refused.
pub proof fn lemma_all_admitted_with_room(pool: Seq<Entity>, queue: Seq<Actor>, n: int)
    requires
        0 <= n <= queue.len(),
        pool.len() + n <= POOL_CAPACITY,
    ensures
        admitted_upto(pool, queue, n) == pool + Seq::new(
            n as nat,
            |i: int| spawn_of(queue[i]).readied(),
        ),
        refused_upto(pool, queue, n) == Seq::<Actor>::empty(),
    decreases n,
{
    if n > 0 {
        lemma_all_admitted_with_room(pool, queue, n - 1);
        assert(admitted_upto(pool, queue, n) =~= pool + Seq::new(
            n as nat,
            |i: int| spawn_of(queue[i]).readied(),
        ));
    } else {
        assert(pool =~= pool + Seq::new(0nat, |i: int| spawn_of(queue[i]).readied()));
    }
}

/// The entities a scene starts with: one for each descriptor of its
/// layout, in catalog order, each readied once.
pub open spec fn scene_entities(scene: SCENES) -> Seq<Entity> {
    Seq::new(layout_of(scene).len(), |i: int| spawn_of(layout_of(scene)[i]).readied())
}

/// The pool after the tile collision pass.
pub open spec fn level_checked_all(pool: Seq<Entity>, globals: GlobalView) -> Seq<Entity> {
    Seq::new(pool.len(), |i: int| level_checked(pool[i], globals))
}

/// What the game is, as the contracts see it.
pub struct StateView {
    pub objects: Seq<Entity>,
    pub current_map: SCENES,
    pub globals: GlobalView,
    pub maps: MapSources,
}

impl StateView {
    /// The pool is within capacity, every entity and the shared state are
    /// valid, and the camera offset is at rest.
    pub open spec fn wf(self) -> bool {
        &&& self.objects.len() <= POOL_CAPACITY
        &&& all_valid(self.objects)
        &&& self.globals.wf()
        &&& self.globals.cam_offset == (crate::geometry::Vector2D { x: 0, y: 0 })
    }

    /// The game after a change to `scene`: the pool holds the scene's
    /// entities, the scene's background is pending, and the level is the
    /// scene's tile map.
    pub open spec fn in_scene(self, scene: SCENES) -> StateView {
        StateView {
            objects: scene_entities(scene),
            current_map: scene,
            globals: GlobalView {
                pending_bg: background_of(scene),
                level: Some(grid_of(self.maps.source_of(scene))),
                ..self.globals
            },
            maps: self.maps,
        }
    }

    /// The game after the spawn queue was drained.
    pub open spec fn spawned(self) -> StateView {
        StateView {
            objects: admitted_upto(
                self.objects,
                self.globals.spawn_queue,
                self.globals.spawn_queue.len() as int,
            ),
            globals: GlobalView { spawn_queue: Seq::empty(), ..self.globals },
            ..self
        }
    }

    /// The descriptors that draining the spawn queue refuses.
    pub open spec fn spawn_refused(self) -> Seq<Actor> {
        refused_upto(self.objects, self.globals.spawn_queue, self.globals.spawn_queue.len() as int)
    }

    /// The frame in which a pending change to `scene` is carried out: the
    /// request is taken, the scene entered, the camera put at rest, the
    /// background shown, and play mode set.
    pub open spec fn transition(self, scene: SCENES) -> (StateView, Seq<FrameCommand>) {
        let taken = StateView {
            globals: GlobalView { next_scene: None, ..self.globals },
            ..self
        };
        let entered = taken.in_scene(scene);
        let rested = GlobalView {
            cam_offset: crate::geometry::Vector2D { x: 0, y: 0 },
            ..entered.globals
        };
        (
            StateView {
                globals: GlobalView { pending_bg: None, mode: GAMEMODE::PLAY, ..rested },
                ..entered
            },
            rested.background_commands(),
        )
    }

    /// A frame of play: the background is shown, then come the free
    /// pass, the spawn drain, the update pass, the pairwise and the tile
    /// collision pass and the draw pass, and the camera is put at rest.
    /// The second part is what the frame asks of the renderer, the third
    /// the spawn requests that were refused.
    pub open spec fn played(self) -> (StateView, Seq<FrameCommand>, Seq<Actor>) {
        let shown = StateView {
            objects: freed(self.objects),
            globals: GlobalView { pending_bg: None, ..self.globals },
            ..self
        };
        let drained = shown.spawned();
        let (moved, shared) = updated_upto(
            drained.objects,
            drained.globals,
            drained.objects.len() as int,
        );
        let collided = run_pairs(moved, pair_schedule(moved));
        let settled = level_checked_all(collided, shared);
        (
            StateView {
                objects: settled,
                globals: GlobalView {
                    cam_offset: crate::geometry::Vector2D { x: 0, y: 0 },
                    ..shared
                },
                ..self
            },
            self.globals.background_commands() + drawn_upto(settled, settled.len() as int),
            shown.spawn_refused(),
        )
    }

    /// One frame with the input `input`: a pending scene change is carried
    /// out and nothing else; otherwise the input is stored and, in play
    /// mode, a frame of play follows.
    pub open spec fn cycled(self, input: InputSnapshot) -> (
        StateView,
        Seq<FrameCommand>,
        Seq<Actor>,
    ) {
        match self.globals.next_scene {
            Some(scene) => (self.transition(scene).0, self.transition(scene).1, Seq::empty()),
            None => {
                let polled = StateView {
                    globals: GlobalView { input, ..self.globals },
                    ..self
                };
                match polled.globals.mode {
                    GAMEMODE::PLAY => polled.played(),
                    GAMEMODE::MENU => (polled, Seq::empty(), Seq::empty()),
                }
            },
        }
    }
}

/// The game: the pool of live entities, the scene they belong to, the
/// state they share, and the imported maps.
pub struct GameState {
    obj_box: Vec<Entity>,
    current_map: SCENES,
    globals: GlobalData,
    maps: MapSources,
}

impl View for GameState {
    type V = StateView;

    closed spec fn view(&self) -> StateView {
        StateView {
            objects: self.obj_box@,
            current_map: self.current_map,
            globals: self.globals@,
            maps: self.maps,
        }
    }
}

impl GameState {
    /// A game with an empty pool, in the state every game starts in.
    pub fn new(maps: MapSources) -> (state: GameState)
        ensures
            state@ == (StateView {
                objects: Seq::empty(),
                current_map: SCENES::TestScene,
                globals: GlobalView::initial(),
                maps,
            }),
            state@.wf(),
    {
        GameState {
            obj_box: Vec::new(),
            current_map: SCENES::TestScene,
            globals: GlobalData::new(),
            maps,
        }
    }

    /// The live entities, in pool order.
    pub fn objects(&self) -> (objects: &Vec<Entity>)
        ensures
            objects@ == self@.objects,
    {
        &self.obj_box
    }

    /// The shared state.
    pub fn globals(&self) -> (globals: &GlobalData)
        ensures
            globals@ == self@.globals,
    {
        &self.globals
    }

    /// The scene that was entered last.
    pub fn current_map(&self) -> (scene: SCENES)
        ensures
            scene == self@.current_map,
    {
        self.current_map
    }

    /// Appends a spawn request to the queue, as an entity would during
    /// its update.
    pub fn queue_spawn(&mut self, actor_type: Actor)
        requires
            old(self)@.wf(),
            actor_type.in_world(),
        ensures
            final(self)@ == (StateView {
                globals: GlobalView {
                    spawn_queue: old(self)@.globals.spawn_queue.push(actor_type),
                    ..old(self)@.globals
                },
                ..old(self)@
            }),
            final(self)@.wf(),
    {
        self.globals.spawn_queue(actor_type);
    }

    /// Asks for a change to `new_scene`, to be carried out by the next
    /// frame. A request still pending is replaced.
    pub fn queue_scene_transition(&mut self, new_scene: SCENES)
        requires
            old(self)@.wf(),
        ensures
            final(self)@ == (StateView {
                globals: GlobalView { next_scene: Some(new_scene), ..old(self)@.globals },
                ..old(self)@
            }),
            final(self)@.wf(),
    {
        self.globals.queue_scene_transition(new_scene);
    }

    /// Admits `new_obj` to the pool and readies it, if there is room or
    /// room can be made by evicting an entity; refuses it with `PoolFull`
    /// otherwise, leaving the pool as it was.
    pub fn add_obj(&mut self, new_obj: Entity) -> (admitted: Result<bool, PoolError>)
        requires
            old(self)@.wf(),
            new_obj.inv(),
        ensures
            admitted is Ok <==> slot_found(old(self)@.objects),
            admitted matches Ok(entered) ==> entered,
            final(self)@ == (StateView {
                objects: admitted_one(old(self)@.objects, new_obj),
                ..old(self)@
            }),
            final(self)@.wf(),
    {
        proof {
            lemma_first_cleanup(self.obj_box@, 0);
        }
        if find_obj_slot(&mut self.obj_box) {
            self.obj_box.push(new_obj);
            let last = self.obj_box.len() - 1;
            let mut val = self.obj_box[last];
            val.ready();
            self.obj_box.set(last, val);
            assert(self.obj_box@ =~= admitted_one(old(self)@.objects, new_obj));
            return Ok(true);
        }
        Err(PoolError::PoolFull)
    }

    /// Removes every entity from the pool.
    pub fn empty_box(&mut self)
        requires
            old(self)@.wf(),
        ensures
            final(self)@ == (StateView { objects: Seq::empty(), ..old(self)@ }),
            final(self)@.wf(),
    {
        self.obj_box.clear();
    }

    /// Enters `next_scene`: afterwards the pool holds exactly the entities
    /// of the scene's layout, in catalog order and each readied once; the
    /// scene's background is pending and its tile map is the level.
    pub fn change_scene(&mut self, next_scene: SCENES)
        requires
            old(self)@.wf(),
        ensures
            final(self)@ == old(self)@.in_scene(next_scene),
            final(self)@.wf(),
    {
        self.empty_box();
        let new_box = get_layout(next_scene);
        self.globals.queue_bg_change(get_bg_val(next_scene));
        self.globals.load_level_layout(next_scene, &self.maps);
        proof {
            lemma_layout_small(next_scene);
        }
        let mut i: usize = 0;
        while i < new_box.len()
            invariant
                i <= new_box@.len(),
                new_box@ == layout_of(next_scene),
                new_box@.len() <= 6,
                forall|k: int| 0 <= k < new_box@.len() ==> (#[trigger] new_box@[k]).in_world(),
                self@.wf(),
                self@.objects == Seq::new(i as nat, |k: int| spawn_of(layout_of(next_scene)[k]).readied()),
                self@.current_map == old(self)@.current_map,
                self@.maps == old(self)@.maps,
                self@.globals == old(self)@.in_scene(next_scene).globals,
            decreases new_box@.len() - i,
        {
            match self.add_obj(spawn_actor(new_box[i])) {
                Ok(_) => {},
                Err(_) => {},
            }
            assert(self@.objects =~= Seq::new(
                (i + 1) as nat,
                |k: int| spawn_of(layout_of(next_scene)[k]).readied(),
            ));
            i += 1;
        }
        self.current_map = next_scene;
    }

    /// Constructs every queued descriptor and asks for its admission, in
    /// queue order, and empties the queue whatever came of it. Returns the
    /// descriptors that were refused.
    pub fn spawn_objs_in_queue(&mut self) -> (refused: Vec<Actor>)
        requires
            old(self)@.wf(),
        ensures
            final(self)@ == old(self)@.spawned(),
            refused@ == old(self)@.spawn_refused(),
            final(self)@.wf(),
    {
        let queue = self.globals.get_spawn_queue();
        let mut refused: Vec<Actor> = Vec::new();
        let mut i: usize = 0;
        while i < queue.len()
            invariant
                i <= queue@.len(),
                queue@ == old(self)@.globals.spawn_queue,
                self@.wf(),
                self@.globals == old(self)@.globals,
                self@.current_map == old(self)@.current_map,
                self@.maps == old(self)@.maps,
                self@.objects == admitted_upto(old(self)@.objects, queue@, i as int),
                refused@ == refused_upto(old(self)@.objects, queue@, i as int),
            decreases queue@.len() - i,
        {
            let child_queue_entry = queue[i];
            assert(self@.globals.spawn_queue[i as int].in_world());
            match self.add_obj(spawn_actor(child_queue_entry)) {
                Ok(_) => {},
                Err(_) => {
                    refused.push(child_queue_entry);
                },
            }
            i += 1;
        }
        self.globals.clear_spawn_queue();
        refused
    }

    /// Runs one frame with the input `input`, appending to `frame` what
    /// the renderer is to show. Returns the spawn requests that were
    /// refused in this frame.
    pub fn cycle_update(&mut self, input: InputSnapshot, frame: &mut Frame) -> (refused: Vec<Actor>)
        requires
            old(self)@.wf(),
        ensures
            final(self)@ == old(self)@.cycled(input).0,
            final(frame).commands@ == old(frame).commands@ + old(self)@.cycled(input).1,
            refused@ == old(self)@.cycled(input).2,
            final(self)@.wf(),
    {
        let ghost start = self@;
        match self.globals.scene_change_queued() {
            Some(new_scene) => {
                self.change_scene(new_scene);
                self.globals.reset_offset();
                self.globals.process_bg(frame);
                self.globals.set_mode(GAMEMODE::PLAY);
                assert(self@ == start.transition(new_scene).0);
                Vec::new()
            },
            None => {
                self.globals.update_input(input);
                let ghost polled = self@;
                match self.globals.get_mode() {
                    GAMEMODE::PLAY => {
                        self.globals.process_bg(frame);
                        update_free(&mut self.obj_box);
                        let refused = self.spawn_objs_in_queue();
                        update_objs(&mut self.obj_box, &mut self.globals);
                        let ghost shared = self.globals@;
                        update_collisions(&mut self.obj_box);
                        let ghost collided = self.obj_box@;
                        update_level_collisions(&mut self.obj_box, &self.globals);
                        assert(self.obj_box@ =~= level_checked_all(collided, shared));
                        draw_objs(&self.obj_box, frame);
                        self.globals.reset_offset();
                        assert(frame.commands@ =~= old(frame).commands@ + polled.played().1);
                        assert(self@ == polled.played().0);
                        refused
                    },
                    GAMEMODE::MENU => {
                        assert(frame.commands@ =~= old(frame).commands@ + Seq::<FrameCommand>::empty());
                        Vec::new()
                    },
                }
            },
        }
    }
}

} // verus!
