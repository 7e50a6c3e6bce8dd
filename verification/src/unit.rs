//! The combat / behavior record of an entity.

use vstd::prelude::*;

use crate::gamecell::GameCell;
use crate::types::Race;
use crate::types::Rgb;

verus! {

/// Clips a mathematical integer to the `i32` range.
pub open spec fn clip_i32(v: int) -> i32 {
    if v < i32::MIN as int {
        i32::MIN
    } else if v > i32::MAX as int {
        i32::MAX
    } else {
        v as i32
    }
}

/// Per-unit faction, health, and the three independent per-round resource
/// budgets.  Each budget is a `(current, max)` pair: `current` depletes with
/// use and resets to `max` on recharge.  `move_dist` and `attack_range` are
/// square-region half-widths; `lifespan` is a countdown of rounds present
/// only on ephemeral units.
#[derive(Clone, Copy, Debug, PartialEq, Eq)]
pub struct Unit {
    pub race: Race,
    pub hp: i32,
    pub num_moves: (i32, i32),
    pub move_dist: i32,
    pub damage: i32,
    pub num_attacks: (i32, i32),
    pub attack_range: i32,
    pub num_interceptors: (i32, i32),
    pub lifespan: Option<i32>,
}

/// The entity a successful interceptor spawn places at `(x, y)`: a
/// short-lived allied unit with 1 hp, 2 moves, 2 attacks, attack range 1 and
/// a lifespan of 2 rounds.
pub open spec fn interceptor_entity(x: i32, y: i32) -> (GameCell, Unit) {
    (
        GameCell { x, y, symbol: '^', color: Rgb { r: 0, g: 200, b: 0 }, selected: false },
        Unit {
            race: Race::Bionic,
            hp: 1,
            num_moves: (2, 2),
            move_dist: 3,
            damage: 1,
            num_attacks: (2, 2),
            attack_range: 1,
            num_interceptors: (0, 0),
            lifespan: Some(2),
        },
    )
}

impl Unit {
    /// The intended well-formedness of the three budgets:
    /// `0 <= current <= max` for each.
    pub open spec fn budgets_wf(self) -> bool {
        &&& 0 <= self.num_moves.0 <= self.num_moves.1
        &&& 0 <= self.num_attacks.0 <= self.num_attacks.1
        &&& 0 <= self.num_interceptors.0 <= self.num_interceptors.1
    }

    /// [`Unit::use_move`] as a pure function: one move spent, if any is
    /// available.
    pub open spec fn spec_use_move(self) -> Unit {
        if self.num_moves.0 > 0 {
            Unit { num_moves: ((self.num_moves.0 - 1) as i32, self.num_moves.1), ..self }
        } else {
            self
        }
    }

    /// [`Unit::use_attack`] as a pure function: one attack spent, if any is
    /// available.
    pub open spec fn spec_use_attack(self) -> Unit {
        if self.num_attacks.0 > 0 {
            Unit { num_attacks: ((self.num_attacks.0 - 1) as i32, self.num_attacks.1), ..self }
        } else {
            self
        }
    }

    /// [`Unit::harm`] as a pure function: `amount` subtracted from health,
    /// clipped to the machine range.
    pub open spec fn spec_harm(self, amount: i32) -> Unit {
        Unit { hp: clip_i32(self.hp as int - amount as int), ..self }
    }

    /// [`Unit::recharge`] as a pure function: every budget back to its max;
    /// a present lifespan counts down, and forces `hp` to 0 when it runs out.
    pub open spec fn spec_recharge(self) -> Unit {
        let refilled = Unit {
            num_moves: (self.num_moves.1, self.num_moves.1),
            num_attacks: (self.num_attacks.1, self.num_attacks.1),
            num_interceptors: (self.num_interceptors.1, self.num_interceptors.1),
            ..self
        };
        match self.lifespan {
            Some(ls) => {
                let nls = if ls > i32::MIN { (ls - 1) as i32 } else { ls };
                Unit {
                    lifespan: Some(nls),
                    hp: if nls <= 0 {
                        0
                    } else {
                        refilled.hp
                    },
                    ..refilled
                }
            },
            None => refilled,
        }
    }

    /// The damage this unit currently deals: its `damage` stat while it has
    /// attacks left, else 0.  Single source of truth for attack resolution.
    pub open spec fn spec_damage(self) -> i32 {
        if self.num_attacks.0 > 0 {
            self.damage
        } else {
            0
        }
    }

    /// A baseline unit: 1 move of distance 3, 1 attack of damage 1 at range
    /// 3, no interceptors, no lifespan.
    pub fn new(race: Race, hp: i32) -> (u: Unit)
        ensures
            u == (Unit {
                race,
                hp,
                num_moves: (1, 1),
                move_dist: 3,
                damage: 1,
                num_attacks: (1, 1),
                attack_range: 3,
                num_interceptors: (0, 0),
                lifespan: None,
            }),
    {
        Unit {
            race,
            hp,
            num_moves: (1, 1),
            move_dist: 3,
            damage: 1,
            num_attacks: (1, 1),
            attack_range: 3,
            num_interceptors: (0, 0),
            lifespan: None,
        }
    }

    /// A Bug melee unit: the baseline with 1 hp and attack range 1.
    pub fn new_spider() -> (u: Unit)
        ensures
            u == Unit::new_spider_spec(),
    {
        Unit::new(Race::Bug, 1).with_attack_range(1)
    }

    /// [`Unit::new_spider`] as a value.
    pub open spec fn new_spider_spec() -> Unit {
        Unit {
            race: Race::Bug,
            hp: 1,
            num_moves: (1, 1),
            move_dist: 3,
            damage: 1,
            num_attacks: (1, 1),
            attack_range: 1,
            num_interceptors: (0, 0),
            lifespan: None,
        }
    }

    /// A Bionic carrier: no attacks of its own, but two interceptor charges.
    pub fn new_war_carrier() -> (u: Unit)
        ensures
            u == Unit::new_war_carrier_spec(),
    {
        Unit {
            race: Race::Bionic,
            hp: 6,
            num_moves: (1, 1),
            move_dist: 1,
            damage: 1,
            num_attacks: (0, 0),
            attack_range: 0,
            num_interceptors: (2, 2),
            lifespan: None,
        }
    }

    /// [`Unit::new_war_carrier`] as a value.
    pub open spec fn new_war_carrier_spec() -> Unit {
        Unit {
            race: Race::Bionic,
            hp: 6,
            num_moves: (1, 1),
            move_dist: 1,
            damage: 1,
            num_attacks: (0, 0),
            attack_range: 0,
            num_interceptors: (2, 2),
            lifespan: None,
        }
    }

    pub fn with_num_moves(self, n: i32) -> (u: Unit)
        ensures
            u == (Unit { num_moves: (n, n), ..self }),
    {
        Unit { num_moves: (n, n), ..self }
    }

    pub fn with_move_dist(self, x: i32) -> (u: Unit)
        ensures
            u == (Unit { move_dist: x, ..self }),
    {
        Unit { move_dist: x, ..self }
    }

    pub fn with_damage(self, x: i32) -> (u: Unit)
        ensures
            u == (Unit { damage: x, ..self }),
    {
        Unit { damage: x, ..self }
    }

    pub fn with_num_attacks(self, n: i32) -> (u: Unit)
        ensures
            u == (Unit { num_attacks: (n, n), ..self }),
    {
        Unit { num_attacks: (n, n), ..self }
    }

    pub fn with_attack_range(self, x: i32) -> (u: Unit)
        ensures
            u == (Unit { attack_range: x, ..self }),
    {
        Unit { attack_range: x, ..self }
    }

    pub fn with_lifespan(self, x: i32) -> (u: Unit)
        ensures
            u == (Unit { lifespan: Some(x), ..self }),
    {
        Unit { lifespan: Some(x), ..self }
    }

    /// Spends one move, if any is available; a no-op on an exhausted budget,
    /// so `current` never goes negative.
    pub fn use_move(&mut self)
        ensures
            *final(self) == old(self).spec_use_move(),
    {
        if self.num_moves.0 > 0 {
            self.num_moves = (self.num_moves.0 - 1, self.num_moves.1);
        }
    }

    /// Spends one attack, if any is available; a no-op on an exhausted
    /// budget, so `current` never goes negative.
    pub fn use_attack(&mut self)
        ensures
            *final(self) == old(self).spec_use_attack(),
    {
        if self.num_attacks.0 > 0 {
            self.num_attacks = (self.num_attacks.0 - 1, self.num_attacks.1);
        }
    }

    /// Subtracts `amount` from health, clipping at the machine range instead
    /// of overflowing.
    pub fn harm(&mut self, amount: i32)
        ensures
            *final(self) == old(self).spec_harm(amount),
    {
        let wide: i64 = self.hp as i64 - amount as i64;
        self.hp = if wide < i32::MIN as i64 {
            i32::MIN
        } else if wide > i32::MAX as i64 {
            i32::MAX
        } else {
            wide as i32
        };
    }

    /// Resets every budget to its max.  A present lifespan is decremented,
    /// and health is forced to 0 once it reaches 0 or below, scheduling the
    /// unit for death cleanup.  Called once per unit per full turn cycle.
    pub fn recharge(&mut self)
        ensures
            *final(self) == old(self).spec_recharge(),
    {
        self.num_moves = (self.num_moves.1, self.num_moves.1);
        self.num_attacks = (self.num_attacks.1, self.num_attacks.1);
        self.num_interceptors = (self.num_interceptors.1, self.num_interceptors.1);
        match self.lifespan {
            Some(ls) => {
                let nls: i32 = if ls > i32::MIN {
                    ls - 1
                } else {
                    ls
                };
                self.lifespan = Some(nls);
                if nls <= 0 {
                    self.hp = 0;
                }
            },
            None => {},
        }
    }

    /// If an interceptor charge is available, spends it and returns the
    /// fresh entity to place at `(x, y)`; otherwise changes nothing and
    /// returns `None`.  A factory: the spawner itself does not move.
    pub fn make_interceptor(&mut self, x: i32, y: i32) -> (r: Option<(GameCell, Unit)>)
        ensures
            old(self).num_interceptors.0 > 0 ==> {
                &&& *final(self) == (Unit {
                    num_interceptors: (
                        (old(self).num_interceptors.0 - 1) as i32,
                        old(self).num_interceptors.1,
                    ),
                    ..*old(self)
                })
                &&& r == Some(interceptor_entity(x, y))
            },
            old(self).num_interceptors.0 <= 0 ==> *final(self) == *old(self) && r is None,
    {
        if self.num_interceptors.0 > 0 {
            self.num_interceptors = (self.num_interceptors.0 - 1, self.num_interceptors.1);
            Some(
                (
                    GameCell::new(x, y, '^', Rgb::from_u8(0, 200, 0)),
                    Unit::new(Race::Bionic, 1).with_num_moves(2).with_num_attacks(2)
                        .with_attack_range(1)
                        .with_lifespan(2),
                ),
            )
        } else {
            None
        }
    }

    pub fn can_move(&self) -> (r: bool)
        ensures
            r == (self.num_moves.0 > 0),
    {
        self.num_moves.0 > 0
    }

    pub fn race(&self) -> (r: Race)
        ensures
            r == self.race,
    {
        self.race
    }

    pub fn hp(&self) -> (r: i32)
        ensures
            r == self.hp,
    {
        self.hp
    }

    pub fn num_moves(&self) -> (r: (i32, i32))
        ensures
            r == self.num_moves,
    {
        self.num_moves
    }

    pub fn move_dist(&self) -> (r: i32)
        ensures
            r == self.move_dist,
    {
        self.move_dist
    }

    pub fn num_attacks(&self) -> (r: (i32, i32))
        ensures
            r == self.num_attacks,
    {
        self.num_attacks
    }

    /// The damage this unit currently deals: 0 once its attack budget is
    /// exhausted.
    pub fn damage(&self) -> (r: i32)
        ensures
            r == self.spec_damage(),
    {
        if self.num_attacks.0 > 0 {
            self.damage
        } else {
            0
        }
    }

    pub fn attack_range(&self) -> (r: i32)
        ensures
            r == self.attack_range,
    {
        self.attack_range
    }

    pub fn num_interceptors(&self) -> (r: (i32, i32))
        ensures
            r == self.num_interceptors,
    {
        self.num_interceptors
    }
}

} // verus!
