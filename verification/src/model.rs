//! The abstract model of the engine: a ghost record of the whole session
//! state, and one pure step function per rule.
//!
//! Every executable transition of [`crate::state::State`] is specified as
//! `final(self)@ == <step>(old(self)@, ...)` over these functions, so the
//! rules live here in one place and the laws about them are proved against
//! these definitions alone.

use vstd::prelude::*;

use crate::gamecell::GameCell;
use crate::geom::in_square;
use crate::types::CurrentState;
use crate::types::Key;
use crate::types::Mode;
use crate::types::Race;
use crate::types::Rgb;
use crate::unit::Unit;
use crate::unit::interceptor_entity;

verus! {

/// One world entity: a cell paired with a unit.
pub type Entity = (GameCell, Unit);

/// The whole session state as a mathematical value.
#[verifier::ext_equal]
pub struct Model {
    /// Title screen or game.
    pub state: CurrentState,
    /// The unordered roster of live entities.
    pub world: Seq<Entity>,
    /// Terminal size in cells, fixed at construction.
    pub window: (u32, u32),
    /// Pointer position as consumed at the start of the cycle.
    pub mouse: (i32, i32),
    /// A press is pending (half of a press-then-release gesture).
    pub pressed: bool,
    /// A click was completed this cycle.
    pub released: bool,
    /// Whose turn it is.
    pub turn: Race,
    /// Whether any entity is currently selected, as recomputed by the last
    /// selection dispatch.
    pub selected: bool,
    /// Which rule a released click dispatches to.
    pub mode: Mode,
}

/// The grid position of an entity.
pub open spec fn pos(e: Entity) -> (i32, i32) {
    (e.0.x, e.0.y)
}

/// Entity `i` stands at `p`.
pub open spec fn entity_at(w: Seq<Entity>, i: int, p: (i32, i32)) -> bool {
    pos(w[i]) == p
}

/// Some entity stands at `p`.
pub open spec fn occupied(w: Seq<Entity>, p: (i32, i32)) -> bool {
    exists|i: int| 0 <= i < w.len() && #[trigger] entity_at(w, i, p)
}

/// Entity `i` is selected.
pub open spec fn selected_at(w: Seq<Entity>, i: int) -> bool {
    w[i].0.selected
}

/// Some entity is selected.
pub open spec fn some_selected(w: Seq<Entity>) -> bool {
    exists|i: int| 0 <= i < w.len() && #[trigger] selected_at(w, i)
}

/// `j` is the lowest index of a selected entity.
pub open spec fn is_first_selected(w: Seq<Entity>, j: int) -> bool {
    &&& 0 <= j < w.len()
    &&& selected_at(w, j)
    &&& forall|k: int| 0 <= k < j ==> !#[trigger] selected_at(w, k)
}

/// The lowest index of a selected entity; meaningful only when
/// [`some_selected`] holds (see [`lemma_first_selected`]).
pub open spec fn first_selected(w: Seq<Entity>) -> int {
    choose|j: int| is_first_selected(w, j)
}

/// No two selected entities: the intended global exclusivity of selection.
pub open spec fn at_most_one_selected(w: Seq<Entity>) -> bool {
    forall|i: int, j: int|
        0 <= i < w.len() && 0 <= j < w.len() && #[trigger] selected_at(w, i)
            && #[trigger] selected_at(w, j) ==> i == j
}

/// Every unit's three budgets satisfy `0 <= current <= max`.
pub open spec fn all_budgets_wf(w: Seq<Entity>) -> bool {
    forall|i: int| 0 <= i < w.len() ==> (#[trigger] w[i]).1.budgets_wf()
}

/// No two entities share a position.
pub open spec fn distinct_positions(w: Seq<Entity>) -> bool {
    forall|i: int, j: int|
        0 <= i < w.len() && 0 <= j < w.len() && i != j ==> #[trigger] pos(w[i]) != #[trigger] pos(
            w[j],
        )
}

/// Whenever any entity is selected there is a lowest selected index, and it
/// is the one [`first_selected`] denotes; moreover that index is unique.
pub proof fn lemma_first_selected(w: Seq<Entity>)
    requires
        some_selected(w),
    ensures
        is_first_selected(w, first_selected(w)),
        forall|j: int| is_first_selected(w, j) ==> j == first_selected(w),
{
    let i = choose|i: int| 0 <= i < w.len() && #[trigger] selected_at(w, i);
    lemma_first_selected_below(w, i);
    let f = first_selected(w);
    assert forall|j: int| is_first_selected(w, j) implies j == f by {
        if j < f {
            assert(!selected_at(w, j));
        } else if f < j {
            assert(!selected_at(w, f));
        }
    }
}

proof fn lemma_first_selected_below(w: Seq<Entity>, i: int)
    requires
        0 <= i < w.len(),
        selected_at(w, i),
    ensures
        exists|j: int| is_first_selected(w, j),
    decreases i,
{
    if forall|k: int| 0 <= k < i ==> !#[trigger] selected_at(w, k) {
        assert(is_first_selected(w, i));
    } else {
        let k = choose|k: int| 0 <= k < i && #[trigger] selected_at(w, k);
        lemma_first_selected_below(w, k);
    }
}

/// Selection dispatch on the world: the cell at the pointer becomes
/// selected, every other cell is deselected.
pub open spec fn select_world(w: Seq<Entity>, p: (i32, i32)) -> Seq<Entity> {
    w.map(
        |i: int, e: Entity|
            (GameCell { selected: e.0.x == p.0 && e.0.y == p.1, ..e.0 }, e.1),
    )
}

/// Selection dispatch: the world is reselected around the pointer and the
/// session's selection flag records whether anything was hit.
pub open spec fn select_step(m: Model) -> Model {
    Model { world: select_world(m.world, m.mouse), selected: occupied(m.world, m.mouse), ..m }
}

/// Entity `i` belongs to the faction whose turn it is, has a move left, and
/// the pointer lies within its movement square.
pub open spec fn can_reach(w: Seq<Entity>, i: int, turn: Race, p: (i32, i32)) -> bool {
    &&& w[i].1.race == turn
    &&& w[i].1.num_moves.0 > 0
    &&& in_square(
        w[i].0.x as int,
        w[i].0.y as int,
        w[i].1.move_dist as int,
        p.0 as int,
        p.1 as int,
    )
}

/// Movement is legal: a selected, in-turn entity with budget can reach the
/// pointer, and no entity occupies the pointed-at cell.
pub open spec fn move_allowed(w: Seq<Entity>, turn: Race, p: (i32, i32)) -> bool {
    &&& exists|i: int|
        0 <= i < w.len() && #[trigger] selected_at(w, i) && can_reach(w, i, turn, p)
    &&& !occupied(w, p)
}

/// The selected entity, moved to `p` with one move spent.
pub open spec fn moved_entity(e: Entity, p: (i32, i32)) -> Entity {
    (GameCell { x: p.0, y: p.1, ..e.0 }, e.1.spec_use_move())
}

/// Move dispatch: if movement is legal the selected entity steps onto the
/// pointed-at cell and spends one move; once its budget is exhausted the
/// mode falls back to `Select`.  Otherwise nothing changes.
pub open spec fn move_step(m: Model) -> Model {
    if move_allowed(m.world, m.turn, m.mouse) && some_selected(m.world) {
        let j = first_selected(m.world);
        let e2 = moved_entity(m.world[j], m.mouse);
        Model {
            world: m.world.update(j, e2),
            mode: if e2.1.num_moves.0 <= 0 {
                Mode::Select
            } else {
                m.mode
            },
            ..m
        }
    } else {
        m
    }
}

/// Some entity of a faction other than entity `j`'s stands at `p`.
pub open spec fn foe_at(w: Seq<Entity>, j: int, p: (i32, i32)) -> bool {
    exists|k: int|
        0 <= k < w.len() && w[k].1.race != w[j].1.race && #[trigger] entity_at(w, k, p)
}

/// The damage an attack dispatch deals: the selected entity's effective
/// damage if the pointer lies within its attack square and a foe stands
/// there; else 0.
pub open spec fn attack_damage(w: Seq<Entity>, p: (i32, i32)) -> i32 {
    if some_selected(w) {
        let j = first_selected(w);
        if in_square(
            w[j].0.x as int,
            w[j].0.y as int,
            w[j].1.attack_range as int,
            p.0 as int,
            p.1 as int,
        ) && foe_at(w, j, p) {
            w[j].1.spec_damage()
        } else {
            0
        }
    } else {
        0
    }
}

/// How one entity comes out of an attack that deals `d` at `p`: the
/// attacker spends an attack, whoever else stands at `p` is harmed.
pub open spec fn attacked_entity(e: Entity, p: (i32, i32), d: i32) -> Entity {
    if e.0.selected {
        (e.0, e.1.spec_use_attack())
    } else if e.0.x == p.0 && e.0.y == p.1 {
        (e.0, e.1.spec_harm(d))
    } else {
        e
    }
}

/// The whole world after an attack that deals `d` at `p`.
pub open spec fn attack_world(w: Seq<Entity>, p: (i32, i32), d: i32) -> Seq<Entity> {
    w.map(|i: int, e: Entity| attacked_entity(e, p, d))
}

/// Attack dispatch: resolve the damage; if it is positive, apply it.
pub open spec fn attack_step(m: Model) -> Model {
    let d = attack_damage(m.world, m.mouse);
    if d > 0 {
        Model { world: attack_world(m.world, m.mouse, d), ..m }
    } else {
        m
    }
}

/// Build dispatch: if the selected entity is in turn and has an interceptor
/// charge, it spends one and a fresh interceptor appears at the pointer.
/// Selection and mode are unchanged either way.
pub open spec fn build_step(m: Model) -> Model {
    if some_selected(m.world) {
        let j = first_selected(m.world);
        let u = m.world[j].1;
        if u.race == m.turn && u.num_interceptors.0 > 0 {
            let u2 = Unit {
                num_interceptors: ((u.num_interceptors.0 - 1) as i32, u.num_interceptors.1),
                ..u
            };
            Model {
                world: m.world.update(j, (m.world[j].0, u2)).push(
                    interceptor_entity(m.mouse.0, m.mouse.1),
                ),
                ..m
            }
        } else {
            m
        }
    } else {
        m
    }
}

/// The entity survives death cleanup.
pub open spec fn alive(e: Entity) -> bool {
    e.1.hp > 0
}

/// Death cleanup on the world: every entity with `hp <= 0` is removed and
/// the survivors keep their relative order.
pub open spec fn cleanup_world(w: Seq<Entity>) -> Seq<Entity>
    decreases w.len(),
{
    if w.len() == 0 {
        Seq::empty()
    } else {
        let rest = cleanup_world(w.drop_last());
        if alive(w.last()) {
            rest.push(w.last())
        } else {
            rest
        }
    }
}

/// Death cleanup, run unconditionally at the end of every cycle.
pub open spec fn cleanup_step(m: Model) -> Model {
    Model { world: cleanup_world(m.world), ..m }
}

/// The world with every unit recharged.
pub open spec fn recharge_world(w: Seq<Entity>) -> Seq<Entity> {
    w.map(|i: int, e: Entity| (e.0, e.1.spec_recharge()))
}

/// Turn advancement: `Bug -> Human -> Bionic -> Bug`; the wrap back into
/// `Bug` is the sole trigger of the global recharge pass.
pub open spec fn advance_step(m: Model) -> Model {
    match m.turn {
        Race::Bug => Model { turn: Race::Human, ..m },
        Race::Human => Model { turn: Race::Bionic, ..m },
        Race::Bionic => Model { turn: Race::Bug, world: recharge_world(m.world), ..m },
    }
}

/// Key handling: `M`/`A`/`B` switch the mode while something is selected,
/// `Escape` always cancels back to `Select`, anything else is ignored.
pub open spec fn key_step(m: Model, key: Option<Key>) -> Model {
    match key {
        Some(Key::M) => if m.selected {
            Model { mode: Mode::Move, ..m }
        } else {
            m
        },
        Some(Key::A) => if m.selected {
            Model { mode: Mode::Attack, ..m }
        } else {
            m
        },
        Some(Key::B) => if m.selected {
            Model { mode: Mode::Build, ..m }
        } else {
            m
        },
        Some(Key::Escape) => Model { mode: Mode::Select, ..m },
        Some(Key::Space) => m,
        None => m,
    }
}

/// The pointer hovers the fixed "end turn" region: the 10-cell-wide box at
/// the top right corner of the window.
pub open spec fn end_turn_hover(m: Model) -> bool {
    &&& m.mouse.0 as int >= m.window.0 as int - 10
    &&& m.mouse.0 as int <= m.window.0 as int
    &&& 0 <= m.mouse.1 as int <= 2
}

/// Consuming this cycle's raw input: the pointer position is taken over,
/// and a click completes a pending press into a released-this-cycle edge.
pub open spec fn input_step(m: Model, pointer: (i32, i32), left_click: bool) -> Model {
    Model {
        mouse: pointer,
        released: if left_click && m.pressed {
            true
        } else {
            m.released
        },
        pressed: if left_click {
            !m.pressed
        } else {
            m.pressed
        },
        ..m
    }
}

/// A released click dispatches to the rule the current mode names; Build
/// additionally requires the session's selection flag.
pub open spec fn dispatch_step(m: Model) -> Model {
    match m.mode {
        Mode::Select => select_step(m),
        Mode::Move => move_step(m),
        Mode::Attack => attack_step(m),
        Mode::Build => if m.selected {
            build_step(m)
        } else {
            m
        },
    }
}

/// One full interaction cycle of the game: consume input; on a released
/// click inside the end-turn region advance the turn, and dispatch by mode;
/// handle keys; run death cleanup; clear the click edge.
pub open spec fn play_step(m: Model, pointer: (i32, i32), left_click: bool, key: Option<Key>) -> Model {
    let m1 = input_step(m, pointer, left_click);
    let m2 = if end_turn_hover(m1) && m1.released {
        advance_step(m1)
    } else {
        m1
    };
    let m3 = if m1.released {
        dispatch_step(m2)
    } else {
        m2
    };
    let m4 = key_step(m3, key);
    let m5 = cleanup_step(m4);
    Model { released: false, ..m5 }
}

/// The title screen: the space bar starts the game; nothing else happens.
pub open spec fn menu_step(m: Model, key: Option<Key>) -> Model {
    if key == Some(Key::Space) {
        Model { state: CurrentState::Playing, ..m }
    } else {
        m
    }
}

/// One frame of the session: the menu waits for space, the game runs a full
/// interaction cycle.
pub open spec fn tick_step(m: Model, pointer: (i32, i32), left_click: bool, key: Option<Key>) -> Model {
    match m.state {
        CurrentState::Menu => menu_step(m, key),
        CurrentState::Playing => play_step(m, pointer, left_click, key),
    }
}

/// A cell of the initial roster.
pub open spec fn roster_cell(x: i32, y: i32, symbol: char, color: Rgb) -> GameCell {
    GameCell { x, y, symbol, color, selected: false }
}

/// The unit [`Unit::new`] returns.
pub open spec fn base_unit(race: Race, hp: i32) -> Unit {
    Unit {
        race,
        hp,
        num_moves: (1, 1),
        move_dist: 3,
        damage: 1,
        num_attacks: (1, 1),
        attack_range: 3,
        num_interceptors: (0, 0),
        lifespan: None,
    }
}

/// The fixed starting roster: five Bug, three Human and five Bionic units.
pub open spec fn initial_roster() -> Seq<Entity> {
    seq![
        (
            roster_cell(10, 10, '*', Rgb { r: 170, g: 20, b: 0 }),
            Unit::new_spider_spec(),
        ),
        (
            roster_cell(11, 10, '*', Rgb { r: 170, g: 20, b: 0 }),
            Unit::new_spider_spec(),
        ),
        (
            roster_cell(8, 9, 'Q', Rgb { r: 170, g: 20, b: 0 }),
            Unit { move_dist: 1, ..base_unit(Race::Bug, 2) },
        ),
        (
            roster_cell(7, 10, 'J', Rgb { r: 170, g: 20, b: 0 }),
            Unit { num_moves: (2, 2), attack_range: 1, ..base_unit(Race::Bug, 1) },
        ),
        (
            roster_cell(6, 11, 'D', Rgb { r: 170, g: 20, b: 0 }),
            Unit { damage: 2, num_attacks: (2, 2), ..base_unit(Race::Bug, 3) },
        ),
        (
            roster_cell(14, 13, 't', Rgb { r: 175, g: 175, b: 175 }),
            Unit { move_dist: 1, ..base_unit(Race::Human, 1) },
        ),
        (
            roster_cell(16, 13, 'W', Rgb { r: 175, g: 175, b: 175 }),
            Unit { move_dist: 1, num_attacks: (3, 3), attack_range: 1, ..base_unit(Race::Human, 2) },
        ),
        (
            roster_cell(15, 12, 'T', Rgb { r: 175, g: 175, b: 175 }),
            Unit { damage: 2, ..base_unit(Race::Human, 3) },
        ),
        (
            roster_cell(20, 20, 'V', Rgb { r: 0, g: 200, b: 0 }),
            Unit { num_moves: (2, 2), num_attacks: (2, 2), attack_range: 1, ..base_unit(Race::Bionic, 2) },
        ),
        (
            roster_cell(15, 20, 'Y', Rgb { r: 0, g: 200, b: 0 }),
            Unit { num_attacks: (2, 2), ..base_unit(Race::Bionic, 3) },
        ),
        (
            roster_cell(13, 20, 'X', Rgb { r: 0, g: 200, b: 0 }),
            Unit { num_moves: (2, 2), num_attacks: (2, 2), ..base_unit(Race::Bionic, 2) },
        ),
        (
            roster_cell(13, 21, 'A', Rgb { r: 0, g: 200, b: 0 }),
            Unit { num_attacks: (4, 4), ..base_unit(Race::Bionic, 4) },
        ),
        (
            roster_cell(15, 22, 'H', Rgb { r: 0, g: 200, b: 0 }),
            Unit::new_war_carrier_spec(),
        ),
    ]
}

/// The session as constructed: on the title screen, with the fixed roster,
/// nothing pressed or selected, Bug to move first, in `Select` mode.
pub open spec fn initial_model(w: u32, h: u32) -> Model {
    Model {
        state: CurrentState::Menu,
        world: initial_roster(),
        window: (w, h),
        mouse: (0, 0),
        pressed: false,
        released: false,
        turn: Race::Bug,
        selected: false,
        mode: Mode::Select,
    }
}

} // verus!
