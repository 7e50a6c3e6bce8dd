//! The general laws of the engine, proved once and for all against the step
//! functions of [`crate::model`].

use vstd::prelude::*;

use crate::geom::in_square;
use crate::model::Entity;
use crate::model::Model;
use crate::model::advance_step;
use crate::model::alive;
use crate::model::all_budgets_wf;
use crate::model::at_most_one_selected;
use crate::model::can_reach;
use crate::model::cleanup_world;
use crate::model::dispatch_step;
use crate::model::distinct_positions;
use crate::model::end_turn_hover;
use crate::model::first_selected;
use crate::model::input_step;
use crate::model::is_first_selected;
use crate::model::key_step;
use crate::model::lemma_first_selected;
use crate::model::move_allowed;
use crate::model::move_step;
use crate::model::moved_entity;
use crate::model::occupied;
use crate::model::play_step;
use crate::model::pos;
use crate::model::select_step;
use crate::model::selected_at;
use crate::model::some_selected;
use crate::model::tick_step;
use crate::types::CurrentState;
use crate::types::Key;
use crate::types::Race;
use crate::unit::Unit;

verus! {

/// Selection exclusivity: as long as no two entities share a position,
/// after any selection dispatch at most one entity is selected, the selected
/// one (if any) is the one at the pointer, and the session's selection flag
/// says exactly whether the pointer hit an entity.
pub proof fn lemma_selection_exclusive(m: Model)
    requires
        distinct_positions(m.world),
    ensures
        ({
            let m2 = select_step(m);
            &&& at_most_one_selected(m2.world)
            &&& forall|i: int|
                0 <= i < m2.world.len() && #[trigger] selected_at(m2.world, i) ==> pos(
                    m.world[i],
                ) == m.mouse
            &&& m2.selected == occupied(m.world, m.mouse)
        }),
{
    let m2 = select_step(m);
    assert forall|i: int, j: int|
        0 <= i < m2.world.len() && 0 <= j < m2.world.len() && #[trigger] selected_at(m2.world, i)
            && #[trigger] selected_at(m2.world, j) implies i == j by {
        assert(pos(m.world[i]) == m.mouse);
        assert(pos(m.world[j]) == m.mouse);
        if i != j {
            assert(pos(m.world[i]) != pos(m.world[j]));
        }
    }
}

/// Move legality: with exactly one selected entity, in turn, a move
/// dispatch moves it to the pointer (spending one move) iff its budget is
/// positive, the pointer lies within its movement square, and the
/// pointed-at cell is unoccupied; in every other case the session is
/// entirely unchanged.
pub proof fn lemma_move_legality(m: Model, j: int)
    requires
        is_first_selected(m.world, j),
        at_most_one_selected(m.world),
        m.world[j].1.race == m.turn,
    ensures
        ({
            let m2 = move_step(m);
            let legal = m.world[j].1.num_moves.0 > 0 && in_square(
                m.world[j].0.x as int,
                m.world[j].0.y as int,
                m.world[j].1.move_dist as int,
                m.mouse.0 as int,
                m.mouse.1 as int,
            ) && !occupied(m.world, m.mouse);
            &&& legal ==> m2.world == m.world.update(j, moved_entity(m.world[j], m.mouse))
                && pos(m2.world[j]) == m.mouse
            &&& !legal ==> m2 == m
        }),
{
    lemma_first_selected(m.world);
    assert(j == first_selected(m.world));
    let legal = m.world[j].1.num_moves.0 > 0 && in_square(
        m.world[j].0.x as int,
        m.world[j].0.y as int,
        m.world[j].1.move_dist as int,
        m.mouse.0 as int,
        m.mouse.1 as int,
    ) && !occupied(m.world, m.mouse);
    if legal {
        assert(selected_at(m.world, j) && can_reach(m.world, j, m.turn, m.mouse));
        assert(move_allowed(m.world, m.turn, m.mouse));
    } else {
        if move_allowed(m.world, m.turn, m.mouse) {
            let i = choose|i: int|
                0 <= i < m.world.len() && #[trigger] selected_at(m.world, i) && can_reach(
                    m.world,
                    i,
                    m.turn,
                    m.mouse,
                );
            assert(i == j);
            assert(false);
        }
    }
}

/// Move budget conservation: on a legal move of the (single) selected
/// entity, its `moves.current` decreases by exactly 1 and, provided its
/// budgets were well formed, stays within `0 <= current <= max`.  No other
/// entity's unit changes at all.
pub proof fn lemma_move_budget(m: Model, j: int)
    requires
        is_first_selected(m.world, j),
        at_most_one_selected(m.world),
        move_allowed(m.world, m.turn, m.mouse),
        m.world[j].1.budgets_wf(),
    ensures
        ({
            let m2 = move_step(m);
            &&& m2.world[j].1.num_moves.0 == m.world[j].1.num_moves.0 - 1
            &&& m2.world[j].1.budgets_wf()
            &&& m2.world[j].1.num_moves.0 <= m2.world[j].1.num_moves.1
            &&& forall|i: int|
                0 <= i < m.world.len() && i != j ==> #[trigger] m2.world[i] == m.world[i]
        }),
{
    lemma_first_selected(m.world);
    assert(j == first_selected(m.world));
    let i = choose|i: int|
        0 <= i < m.world.len() && #[trigger] selected_at(m.world, i) && can_reach(
            m.world,
            i,
            m.turn,
            m.mouse,
        );
    assert(i == j);
    assert(m.world[j].1.num_moves.0 > 0);
}

/// After a recharge every budget's `current` equals its `max`.
pub proof fn lemma_recharge_budgets(u: Unit)
    ensures
        u.spec_recharge().num_moves.0 == u.num_moves.1,
        u.spec_recharge().num_attacks.0 == u.num_attacks.1,
        u.spec_recharge().num_interceptors.0 == u.num_interceptors.1,
{
}

/// Every survivor of death cleanup is alive.
pub proof fn lemma_cleanup_alive(w: Seq<Entity>)
    ensures
        forall|i: int|
            0 <= i < cleanup_world(w).len() ==> alive(#[trigger] cleanup_world(w)[i]),
    decreases w.len(),
{
    if w.len() > 0 {
        lemma_cleanup_alive(w.drop_last());
        let rest = cleanup_world(w.drop_last());
        if alive(w.last()) {
            assert(cleanup_world(w) == rest.push(w.last()));
            assert forall|i: int| 0 <= i < cleanup_world(w).len() implies alive(
                #[trigger] cleanup_world(w)[i],
            ) by {
                if i < rest.len() {
                    assert(cleanup_world(w)[i] == rest[i]);
                } else {
                    assert(cleanup_world(w)[i] == w.last());
                }
            }
        } else {
            assert(cleanup_world(w) == rest);
        }
    }
}

/// Death cleanup of a world of only living entities removes nothing.
pub proof fn lemma_cleanup_of_alive(w: Seq<Entity>)
    requires
        forall|i: int| 0 <= i < w.len() ==> alive(#[trigger] w[i]),
    ensures
        cleanup_world(w) == w,
    decreases w.len(),
{
    if w.len() > 0 {
        lemma_cleanup_of_alive(w.drop_last());
        assert(alive(w.last()));
        assert(cleanup_world(w) =~= w.drop_last().push(w.last()));
        assert(w.drop_last().push(w.last()) =~= w);
    } else {
        assert(cleanup_world(w) =~= w);
    }
}

/// Death cleanup idempotence: running cleanup twice in a row with no
/// mutation in between removes nothing the second time, so an entity with
/// `hp <= 0` is removed exactly once.
pub proof fn lemma_cleanup_idempotent(w: Seq<Entity>)
    ensures
        cleanup_world(cleanup_world(w)) == cleanup_world(w),
{
    lemma_cleanup_alive(w);
    lemma_cleanup_of_alive(cleanup_world(w));
}

/// Death cleanup keeps budget well-formedness.
proof fn lemma_cleanup_preserves_budgets_wf(w: Seq<Entity>)
    requires
        all_budgets_wf(w),
    ensures
        all_budgets_wf(cleanup_world(w)),
    decreases w.len(),
{
    if w.len() > 0 {
        assert(all_budgets_wf(w.drop_last())) by {
            assert(forall|i: int|
                0 <= i < w.len() - 1 ==> #[trigger] w.drop_last()[i] == w[i]);
        }
        lemma_cleanup_preserves_budgets_wf(w.drop_last());
        let rest = cleanup_world(w.drop_last());
        if alive(w.last()) {
            assert(cleanup_world(w) == rest.push(w.last()));
            assert forall|i: int| 0 <= i < cleanup_world(w).len() implies (
            #[trigger] cleanup_world(w)[i]).1.budgets_wf() by {
                if i < rest.len() {
                    assert(cleanup_world(w)[i] == rest[i]);
                } else {
                    assert(cleanup_world(w)[i] == w.last());
                }
            }
        } else {
            assert(cleanup_world(w) == rest);
        }
    }
}

/// Budgets never leave `0 <= current <= max`: one whole session frame, with
/// whatever input, keeps every unit's budgets well formed.  In particular no
/// `current` ever exceeds its `max` and none ever goes negative.
pub proof fn lemma_tick_preserves_budgets_wf(
    m: Model,
    pointer: (i32, i32),
    left_click: bool,
    key: Option<Key>,
)
    requires
        all_budgets_wf(m.world),
    ensures
        all_budgets_wf(tick_step(m, pointer, left_click, key).world),
{
    let m2 = tick_step(m, pointer, left_click, key);
    match m.state {
        CurrentState::Menu => {
        },
        CurrentState::Playing => {
            lemma_play_preserves_budgets_wf(m, pointer, left_click, key);
        },
    }
}

proof fn lemma_play_preserves_budgets_wf(
    m: Model,
    pointer: (i32, i32),
    left_click: bool,
    key: Option<Key>,
)
    requires
        all_budgets_wf(m.world),
    ensures
        all_budgets_wf(play_step(m, pointer, left_click, key).world),
{
    let m1 = input_step(m, pointer, left_click);
    assert(all_budgets_wf(m1.world));
    let m2 = if end_turn_hover(m1) && m1.released {
        advance_step(m1)
    } else {
        m1
    };
    lemma_advance_preserves_budgets_wf(m1);
    assert(all_budgets_wf(m2.world));
    let m3 = if m1.released {
        dispatch_step(m2)
    } else {
        m2
    };
    lemma_dispatch_preserves_budgets_wf(m2);
    assert(all_budgets_wf(m3.world));
    let m4 = key_step(m3, key);
    assert(m4.world == m3.world);
    lemma_cleanup_preserves_budgets_wf(m4.world);
}

proof fn lemma_advance_preserves_budgets_wf(m: Model)
    requires
        all_budgets_wf(m.world),
    ensures
        all_budgets_wf(advance_step(m).world),
{
    let w2 = advance_step(m).world;
    assert forall|i: int| 0 <= i < w2.len() implies (#[trigger] w2[i]).1.budgets_wf() by {
        assert(m.world[i].1.budgets_wf());
    }
}

proof fn lemma_dispatch_preserves_budgets_wf(m: Model)
    requires
        all_budgets_wf(m.world),
    ensures
        all_budgets_wf(dispatch_step(m).world),
{
    let w2 = dispatch_step(m).world;
    if some_selected(m.world) {
        lemma_first_selected(m.world);
    }
    assert forall|i: int| 0 <= i < w2.len() implies (#[trigger] w2[i]).1.budgets_wf() by {
        if i < m.world.len() {
            assert(m.world[i].1.budgets_wf());
        }
    }
}

/// Turn cycle and recharge: starting from `Bug`, three turn advancements
/// return the turn to `Bug`, and exactly then every unit is recharged: each
/// budget's `current` equals its `max`, cells are untouched, and a unit
/// whose lifespan was 1 has its `hp` forced to 0.
pub proof fn lemma_turn_cycle(m: Model)
    requires
        m.turn == Race::Bug,
    ensures
        ({
            let m3 = advance_step(advance_step(advance_step(m)));
            &&& m3.turn == Race::Bug
            &&& m3.world.len() == m.world.len()
            &&& forall|i: int|
                0 <= i < m.world.len() ==> #[trigger] m3.world[i] == (
                    m.world[i].0,
                    m.world[i].1.spec_recharge(),
                )
            &&& forall|i: int|
                0 <= i < m.world.len() ==> {
                    &&& (#[trigger] m3.world[i].1).num_moves.0 == m.world[i].1.num_moves.1
                    &&& m3.world[i].1.num_attacks.0 == m.world[i].1.num_attacks.1
                    &&& m3.world[i].1.num_interceptors.0 == m.world[i].1.num_interceptors.1
                }
            &&& forall|i: int|
                0 <= i < m.world.len() && m.world[i].1.lifespan == Some(1i32) ==> (
                #[trigger] m3.world[i].1).hp == 0
        }),
{
    let m1 = advance_step(m);
    let m2 = advance_step(m1);
    let m3 = advance_step(m2);
    assert(m1.turn == Race::Human && m1.world == m.world);
    assert(m2.turn == Race::Bionic && m2.world == m.world);
    assert(m3.turn == Race::Bug);
    assert forall|i: int| 0 <= i < m.world.len() implies #[trigger] m3.world[i] == (
        m.world[i].0,
        m.world[i].1.spec_recharge(),
    ) by {
    }
}

} // verus!
