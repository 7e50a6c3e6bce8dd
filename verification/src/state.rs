//! The executable session: the entity store, the cursors, and one verified
//! method per rule of the engine.
//!
//! Every mutating method's contract says that the new state is exactly the
//! corresponding step function of [`crate::model`] applied to the old state.

use vstd::prelude::*;

use crate::gamecell::GameCell;
use crate::geom::in_range;
use crate::model::Entity;
use crate::model::Model;
use crate::model::advance_step;
use crate::model::alive;
use crate::model::attack_damage;
use crate::model::attack_step;
use crate::model::attack_world;
use crate::model::attacked_entity;
use crate::model::build_step;
use crate::model::can_reach;
use crate::model::cleanup_step;
use crate::model::cleanup_world;
use crate::model::end_turn_hover;
use crate::model::entity_at;
use crate::model::first_selected;
use crate::model::foe_at;
use crate::model::initial_model;
use crate::model::initial_roster;
use crate::model::input_step;
use crate::model::is_first_selected;
use crate::model::key_step;
use crate::model::lemma_first_selected;
use crate::model::menu_step;
use crate::model::move_allowed;
use crate::model::move_step;
use crate::model::moved_entity;
use crate::model::play_step;
use crate::model::recharge_world;
use crate::model::select_step;
use crate::model::select_world;
use crate::model::selected_at;
use crate::model::some_selected;
use crate::model::tick_step;
use crate::types::CurrentState;
use crate::types::Key;
use crate::types::Mode;
use crate::types::Race;
use crate::types::Rgb;
use crate::unit::Unit;

verus! {

/// The whole game session: the roster of live entities and the process-wide
/// cursors (session screen, turn, mode, selection flag) together with the
/// raw-input bookkeeping of the current press-then-release gesture.
pub struct State {
    pub curr_state: CurrentState,
    pub world: Vec<Entity>,
    pub window_size: (u32, u32),
    pub mouse: (i32, i32),
    pub mouse_pressed: bool,
    pub mouse_released: bool,
    pub turn: Race,
    pub selected: bool,
    pub mode: Mode,
}

impl View for State {
    type V = Model;

    open spec fn view(&self) -> Model {
        Model {
            state: self.curr_state,
            world: self.world@,
            window: self.window_size,
            mouse: self.mouse,
            pressed: self.mouse_pressed,
            released: self.mouse_released,
            turn: self.turn,
            selected: self.selected,
            mode: self.mode,
        }
    }
}

impl State {
    /// A fresh session on a `w` by `h` cell window: title screen, the fixed
    /// starting roster, Bug to move first, `Select` mode, nothing selected.
    pub fn new(w: u32, h: u32) -> (s: State)
        ensures
            s@ == initial_model(w, h),
    {
        let mut roster: Vec<Entity> = Vec::new();
        roster.push(
            (GameCell::new(10, 10, '*', Rgb::from_u8(170, 20, 0)), Unit::new_spider()),
        );
        roster.push(
            (GameCell::new(11, 10, '*', Rgb::from_u8(170, 20, 0)), Unit::new_spider()),
        );
        roster.push(
            (
                GameCell::new(8, 9, 'Q', Rgb::from_u8(170, 20, 0)),
                Unit::new(Race::Bug, 2).with_move_dist(1),
            ),
        );
        roster.push(
            (
                GameCell::new(7, 10, 'J', Rgb::from_u8(170, 20, 0)),
                Unit::new(Race::Bug, 1).with_num_moves(2).with_attack_range(1),
            ),
        );
        roster.push(
            (
                GameCell::new(6, 11, 'D', Rgb::from_u8(170, 20, 0)),
                Unit::new(Race::Bug, 3).with_damage(2).with_num_attacks(2),
            ),
        );
        roster.push(
            (
                GameCell::new(14, 13, 't', Rgb::from_u8(175, 175, 175)),
                Unit::new(Race::Human, 1).with_move_dist(1),
            ),
        );
        roster.push(
            (
                GameCell::new(16, 13, 'W', Rgb::from_u8(175, 175, 175)),
                Unit::new(Race::Human, 2).with_move_dist(1).with_num_attacks(3)
                    .with_attack_range(1),
            ),
        );
        roster.push(
            (
                GameCell::new(15, 12, 'T', Rgb::from_u8(175, 175, 175)),
                Unit::new(Race::Human, 3).with_damage(2),
            ),
        );
        roster.push(
            (
                GameCell::new(20, 20, 'V', Rgb::from_u8(0, 200, 0)),
                Unit::new(Race::Bionic, 2).with_num_moves(2).with_num_attacks(2)
                    .with_attack_range(1),
            ),
        );
        roster.push(
            (
                GameCell::new(15, 20, 'Y', Rgb::from_u8(0, 200, 0)),
                Unit::new(Race::Bionic, 3).with_num_attacks(2),
            ),
        );
        roster.push(
            (
                GameCell::new(13, 20, 'X', Rgb::from_u8(0, 200, 0)),
                Unit::new(Race::Bionic, 2).with_num_moves(2).with_num_attacks(2),
            ),
        );
        roster.push(
            (
                GameCell::new(13, 21, 'A', Rgb::from_u8(0, 200, 0)),
                Unit::new(Race::Bionic, 4).with_num_attacks(4),
            ),
        );
        roster.push(
            (GameCell::new(15, 22, 'H', Rgb::from_u8(0, 200, 0)), Unit::new_war_carrier()),
        );
        let s = State {
            curr_state: CurrentState::Menu,
            world: roster,
            window_size: (w, h),
            mouse: (0, 0),
            mouse_pressed: false,
            mouse_released: false,
            turn: Race::Bug,
            selected: false,
            mode: Mode::Select,
        };
        proof {
            assert(s@.world =~= initial_roster());
            assert(s@ =~= initial_model(w, h));
        }
        s
    }

    /// One frame of the session: the title screen waits for the space bar;
    /// the game runs a full interaction cycle on this frame's raw input.
    pub fn tick(&mut self, pointer: (i32, i32), left_click: bool, key: Option<Key>)
        ensures
            final(self)@ == tick_step(old(self)@, pointer, left_click, key),
    {
        match self.curr_state {
            CurrentState::Menu => self.menu_state(key),
            CurrentState::Playing => self.play_state(pointer, left_click, key),
        }
    }

    /// The title screen: a space press starts the game.
    pub fn menu_state(&mut self, key: Option<Key>)
        ensures
            final(self)@ == menu_step(old(self)@, key),
    {
        match key {
            Some(Key::Space) => {
                self.curr_state = CurrentState::Playing;
            },
            _ => {},
        }
    }

    /// One full interaction cycle: consume this frame's raw input, advance
    /// the turn on a released click in the end-turn region, dispatch the
    /// released click by mode, handle keys, run death cleanup, and clear
    /// the click edge.
    pub fn play_state(&mut self, pointer: (i32, i32), left_click: bool, key: Option<Key>)
        ensures
            final(self)@ == play_step(old(self)@, pointer, left_click, key),
    {
        if left_click {
            if self.mouse_pressed {
                self.mouse_released = true;
            }
            self.mouse_pressed = !self.mouse_pressed;
        }
        self.mouse = pointer;
        proof {
            assert(self@ =~= input_step(old(self)@, pointer, left_click));
        }
        let released = self.mouse_released;
        if self.hovering_end_turn() && released {
            self.advance_turn();
        }
        if released {
            match self.mode {
                Mode::Select => self.select_cells(),
                Mode::Move => self.move_cells(),
                Mode::Attack => self.attack_units(),
                Mode::Build => {
                    if self.selected {
                        self.make_units();
                    }
                },
            }
        }
        self.key_input(key);
        self.clear_cells();
        self.mouse_released = false;
        proof {
            assert(self@ =~= play_step(old(self)@, pointer, left_click, key));
        }
    }

    /// Mode keys: `M`, `A` and `B` switch the dispatch mode while an entity
    /// is selected; `Escape` always cancels back to `Select`.
    pub fn key_input(&mut self, key: Option<Key>)
        ensures
            final(self)@ == key_step(old(self)@, key),
    {
        match key {
            Some(Key::M) => {
                if self.selected {
                    self.mode = Mode::Move;
                }
            },
            Some(Key::A) => {
                if self.selected {
                    self.mode = Mode::Attack;
                }
            },
            Some(Key::B) => {
                if self.selected {
                    self.mode = Mode::Build;
                }
            },
            Some(Key::Escape) => {
                self.mode = Mode::Select;
            },
            Some(Key::Space) => {},
            None => {},
        }
    }

    /// Selection dispatch: the cell at the pointer becomes selected, every
    /// other cell is deselected, and the session's selection flag records
    /// whether anything was hit.
    pub fn select_cells(&mut self)
        ensures
            final(self)@ == select_step(old(self)@),
    {
        let p = self.mouse;
        let mut found = false;
        let mut i: usize = 0;
        while i < self.world.len()
            invariant
                i <= self.world@.len(),
                self.world@.len() == old(self).world@.len(),
                p == old(self).mouse,
                forall|k: int|
                    i <= k < self.world@.len() ==> self.world@[k] == old(self).world@[k],
                forall|k: int|
                    0 <= k < i ==> self.world@[k] == select_world(old(self).world@, p)[k],
                found == exists|k: int|
                    0 <= k < i && #[trigger] entity_at(old(self).world@, k, p),
                self.curr_state == old(self).curr_state,
                self.window_size == old(self).window_size,
                self.mouse == old(self).mouse,
                self.mouse_pressed == old(self).mouse_pressed,
                self.mouse_released == old(self).mouse_released,
                self.turn == old(self).turn,
                self.selected == old(self).selected,
                self.mode == old(self).mode,
            decreases self.world@.len() - i,
        {
            let e = self.world[i];
            let mut c = e.0;
            if c.x() == p.0 && c.y() == p.1 {
                if !c.selected() {
                    c.select();
                }
                found = true;
                proof {
                    assert(entity_at(old(self).world@, i as int, p));
                }
            } else {
                c.deselect();
            }
            self.world[i] = (c, e.1);
            i = i + 1;
        }
        self.selected = found;
        proof {
            assert(self.world@ =~= select_world(old(self).world@, old(self).mouse));
            assert(self@ =~= select_step(old(self)@));
        }
    }

    /// Move dispatch: if a selected, in-turn entity with moves left can
    /// reach the unoccupied pointed-at cell, it steps there and spends one
    /// move; an exhausted budget drops the mode back to `Select`.  In every
    /// other case nothing changes.
    pub fn move_cells(&mut self)
        ensures
            final(self)@ == move_step(old(self)@),
    {
        let p = self.mouse;
        let n = self.world.len();
        let mut found = false;
        let mut i: usize = 0;
        while i < n
            invariant
                i <= n,
                n == self.world@.len(),
                *self == *old(self),
                p == old(self).mouse,
                found == exists|k: int|
                    0 <= k < i && #[trigger] selected_at(self.world@, k) && can_reach(
                        self.world@,
                        k,
                        self.turn,
                        p,
                    ),
            decreases n - i,
        {
            let e = self.world[i];
            if e.1.race() == self.turn && e.0.selected() && e.1.can_move() && in_range(
                e.0.x(),
                e.0.y(),
                e.1.move_dist(),
                p.0,
                p.1,
            ) {
                found = true;
                proof {
                    assert(selected_at(self.world@, i as int) && can_reach(
                        self.world@,
                        i as int,
                        self.turn,
                        p,
                    ));
                }
            }
            i = i + 1;
        }
        let mut occ = false;
        let mut k: usize = 0;
        while k < n
            invariant
                k <= n,
                n == self.world@.len(),
                *self == *old(self),
                p == old(self).mouse,
                occ == exists|j: int| 0 <= j < k && #[trigger] entity_at(self.world@, j, p),
            decreases n - k,
        {
            let e = self.world[k];
            if e.0.x() == p.0 && e.0.y() == p.1 {
                occ = true;
                proof {
                    assert(entity_at(self.world@, k as int, p));
                }
            }
            k = k + 1;
        }
        if found && !occ {
            proof {
                assert(move_allowed(self.world@, self.turn, p));
                assert(some_selected(self.world@));
            }
            let mut j: usize = 0;
            while j < n && !self.world[j].0.selected()
                invariant
                    j <= n,
                    n == self.world@.len(),
                    *self == *old(self),
                    some_selected(self.world@),
                    forall|k2: int| 0 <= k2 < j ==> !#[trigger] selected_at(self.world@, k2),
                decreases n - j,
            {
                j = j + 1;
            }
            proof {
                if j == n {
                    let w = choose|w: int|
                        0 <= w < self.world@.len() && #[trigger] selected_at(self.world@, w);
                    assert(false);
                }
                assert(is_first_selected(self.world@, j as int));
                lemma_first_selected(self.world@);
                assert(j as int == first_selected(self.world@));
            }
            let e = self.world[j];
            let mut c = e.0;
            let mut u = e.1;
            c.move_pos(p.0, p.1);
            u.use_move();
            self.world[j] = (c, u);
            if u.num_moves().0 <= 0 {
                self.mode = Mode::Select;
            }
            proof {
                assert((c, u) == moved_entity(old(self).world@[j as int], p));
                assert(self@ =~= move_step(old(self)@));
            }
        } else {
            proof {
                assert(!move_allowed(self.world@, self.turn, p));
                assert(self@ =~= move_step(old(self)@));
            }
        }
    }

    /// Attack dispatch: resolve the damage the selected entity deals at the
    /// pointer (its effective damage if the pointer is within its attack
    /// square and a foe stands there, else 0); if positive, the attacker
    /// spends an attack and the occupants of the pointed-at cell are harmed.
    pub fn attack_units(&mut self)
        ensures
            final(self)@ == attack_step(old(self)@),
    {
        let p = self.mouse;
        let n = self.world.len();
        let mut j: usize = 0;
        while j < n && !self.world[j].0.selected()
            invariant
                j <= n,
                n == self.world@.len(),
                *self == *old(self),
                forall|k2: int| 0 <= k2 < j ==> !#[trigger] selected_at(self.world@, k2),
            decreases n - j,
        {
            j = j + 1;
        }
        if j == n {
            proof {
                if some_selected(self.world@) {
                    let w = choose|w: int|
                        0 <= w < self.world@.len() && #[trigger] selected_at(self.world@, w);
                    assert(false);
                }
                assert(attack_damage(self.world@, p) == 0);
                assert(self@ =~= attack_step(old(self)@));
            }
            return ;
        }
        proof {
            assert(is_first_selected(self.world@, j as int));
            assert(some_selected(self.world@));
            lemma_first_selected(self.world@);
            assert(j as int == first_selected(self.world@));
        }
        let a = self.world[j];
        let mut damage: i32 = 0;
        if in_range(a.0.x(), a.0.y(), a.1.attack_range(), p.0, p.1) {
            let mut foe = false;
            let mut k: usize = 0;
            while k < n
                invariant
                    k <= n,
                    n == self.world@.len(),
                    *self == *old(self),
                    a == self.world@[j as int],
                    0 <= j < n,
                    foe == exists|i: int|
                        0 <= i < k && self.world@[i].1.race != a.1.race && #[trigger] entity_at(
                            self.world@,
                            i,
                            p,
                        ),
                decreases n - k,
            {
                let e = self.world[k];
                if e.1.race() != a.1.race() && e.0.x() == p.0 && e.0.y() == p.1 {
                    foe = true;
                    proof {
                        assert(entity_at(self.world@, k as int, p));
                    }
                }
                k = k + 1;
            }
            if foe {
                damage = a.1.damage();
            }
            proof {
                assert(foe == foe_at(self.world@, j as int, p));
            }
        }
        proof {
            assert(damage == attack_damage(self.world@, p));
        }
        if damage > 0 {
            let mut i: usize = 0;
            while i < n
                invariant
                    i <= n,
                    n == self.world@.len(),
                    self.world@.len() == old(self).world@.len(),
                    p == old(self).mouse,
                    forall|k2: int|
                        i <= k2 < self.world@.len() ==> self.world@[k2] == old(self).world@[k2],
                    forall|k2: int|
                        0 <= k2 < i ==> self.world@[k2] == attacked_entity(
                            old(self).world@[k2],
                            p,
                            damage,
                        ),
                    self.curr_state == old(self).curr_state,
                    self.window_size == old(self).window_size,
                    self.mouse == old(self).mouse,
                    self.mouse_pressed == old(self).mouse_pressed,
                    self.mouse_released == old(self).mouse_released,
                    self.turn == old(self).turn,
                    self.selected == old(self).selected,
                    self.mode == old(self).mode,
                decreases n - i,
            {
                let e = self.world[i];
                if e.0.selected() {
                    let mut u = e.1;
                    u.use_attack();
                    self.world[i] = (e.0, u);
                } else if e.0.x() == p.0 && e.0.y() == p.1 {
                    let mut u = e.1;
                    u.harm(damage);
                    self.world[i] = (e.0, u);
                }
                i = i + 1;
            }
            proof {
                assert(self.world@ =~= attack_world(old(self).world@, p, damage));
                assert(self@ =~= attack_step(old(self)@));
            }
        } else {
            proof {
                assert(self@ =~= attack_step(old(self)@));
            }
        }
    }

    /// Build dispatch: if the selected entity is in turn and has an
    /// interceptor charge left, it spends one and the fresh interceptor is
    /// inserted at the pointer; otherwise nothing changes.
    pub fn make_units(&mut self)
        ensures
            final(self)@ == build_step(old(self)@),
    {
        let p = self.mouse;
        let n = self.world.len();
        let mut j: usize = 0;
        while j < n && !self.world[j].0.selected()
            invariant
                j <= n,
                n == self.world@.len(),
                *self == *old(self),
                forall|k2: int| 0 <= k2 < j ==> !#[trigger] selected_at(self.world@, k2),
            decreases n - j,
        {
            j = j + 1;
        }
        if j == n {
            proof {
                if some_selected(self.world@) {
                    let w = choose|w: int|
                        0 <= w < self.world@.len() && #[trigger] selected_at(self.world@, w);
                    assert(false);
                }
                assert(self@ =~= build_step(old(self)@));
            }
            return ;
        }
        proof {
            assert(is_first_selected(self.world@, j as int));
            assert(some_selected(self.world@));
            lemma_first_selected(self.world@);
            assert(j as int == first_selected(self.world@));
        }
        let e = self.world[j];
        if e.1.race() == self.turn {
            let mut u = e.1;
            match u.make_interceptor(p.0, p.1) {
                Some(pair) => {
                    self.world[j] = (e.0, u);
                    self.world.push(pair);
                },
                None => {},
            }
        }
        proof {
            assert(self@ =~= build_step(old(self)@));
        }
    }

    /// Death cleanup: every entity whose unit has `hp <= 0` is removed; the
    /// survivors keep their relative order.  Removal candidates are decided
    /// against a full snapshot, so the scan itself never observes a partial
    /// removal.
    pub fn clear_cells(&mut self)
        ensures
            final(self)@ == cleanup_step(old(self)@),
    {
        let n = self.world.len();
        let mut kept: Vec<Entity> = Vec::new();
        let mut i: usize = 0;
        while i < n
            invariant
                i <= n,
                n == self.world@.len(),
                *self == *old(self),
                kept@ == cleanup_world(self.world@.take(i as int)),
            decreases n - i,
        {
            let e = self.world[i];
            if e.1.hp() > 0 {
                kept.push(e);
            }
            proof {
                let w = self.world@;
                let cur = w.take(i as int + 1);
                assert(cur.drop_last() =~= w.take(i as int));
                assert(cur.last() == w[i as int]);
                assert(cleanup_world(cur) == if alive(w[i as int]) {
                    cleanup_world(w.take(i as int)).push(w[i as int])
                } else {
                    cleanup_world(w.take(i as int))
                });
            }
            i = i + 1;
        }
        proof {
            assert(self.world@.take(n as int) =~= self.world@);
        }
        self.world = kept;
        proof {
            assert(self@ =~= cleanup_step(old(self)@));
        }
    }

    /// Turn advancement: `Bug -> Human -> Bionic -> Bug`; the wrap back to
    /// `Bug` recharges every unit in the store.
    pub fn advance_turn(&mut self)
        ensures
            final(self)@ == advance_step(old(self)@),
    {
        match self.turn {
            Race::Bug => {
                self.turn = Race::Human;
            },
            Race::Human => {
                self.turn = Race::Bionic;
            },
            Race::Bionic => {
                let n = self.world.len();
                let mut i: usize = 0;
                while i < n
                    invariant
                        i <= n,
                        n == self.world@.len(),
                        self.world@.len() == old(self).world@.len(),
                        forall|k: int|
                            i <= k < self.world@.len() ==> self.world@[k] == old(self).world@[k],
                        forall|k: int|
                            0 <= k < i ==> self.world@[k] == (
                                old(self).world@[k].0,
                                old(self).world@[k].1.spec_recharge(),
                            ),
                        self.curr_state == old(self).curr_state,
                        self.window_size == old(self).window_size,
                        self.mouse == old(self).mouse,
                        self.mouse_pressed == old(self).mouse_pressed,
                        self.mouse_released == old(self).mouse_released,
                        self.turn == old(self).turn,
                        self.selected == old(self).selected,
                        self.mode == old(self).mode,
                    decreases n - i,
                {
                    let e = self.world[i];
                    let mut u = e.1;
                    u.recharge();
                    self.world[i] = (e.0, u);
                    i = i + 1;
                }
                self.turn = Race::Bug;
                proof {
                    assert(self.world@ =~= recharge_world(old(self).world@));
                }
            },
        }
        proof {
            assert(self@ =~= advance_step(old(self)@));
        }
    }

    /// Whether the stored pointer position hovers the end-turn region.
    pub fn hovering_end_turn(&self) -> (r: bool)
        ensures
            r == end_turn_hover(self@),
    {
        let wx: i64 = self.window_size.0 as i64;
        let mx: i64 = self.mouse.0 as i64;
        let my: i64 = self.mouse.1 as i64;
        mx >= wx - 10 && mx <= wx && my >= 0 && my <= 2
    }

    /// Read-only access to the roster, for the render boundary.
    pub fn entities(&self) -> (r: &Vec<Entity>)
        ensures
            r@ == self@.world,
    {
        &self.world
    }

    pub fn curr_state(&self) -> (r: CurrentState)
        ensures
            r == self@.state,
    {
        self.curr_state
    }

    pub fn mode(&self) -> (r: Mode)
        ensures
            r == self@.mode,
    {
        self.mode
    }

    pub fn turn(&self) -> (r: Race)
        ensures
            r == self@.turn,
    {
        self.turn
    }

    pub fn selected(&self) -> (r: bool)
        ensures
            r == self@.selected,
    {
        self.selected
    }
}

} // verus!
