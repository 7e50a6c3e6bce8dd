//! End-to-end tests of the rules engine on concrete rosters.

use papercraft::CurrentState;
use papercraft::GameCell;
use papercraft::Key;
use papercraft::Mode;
use papercraft::Race;
use papercraft::Rgb;
use papercraft::State;
use papercraft::Unit;

fn grey() -> Rgb {
    Rgb::from_u8(175, 175, 175)
}

/// A playing session with the given roster on an 80 by 40 window.
fn session(world: Vec<(GameCell, Unit)>) -> State {
    State {
        curr_state: CurrentState::Playing,
        world,
        window_size: (80, 40),
        mouse: (0, 0),
        mouse_pressed: false,
        mouse_released: false,
        turn: Race::Bug,
        selected: false,
        mode: Mode::Select,
    }
}

fn selected_cell(x: i32, y: i32) -> GameCell {
    let mut c = GameCell::new(x, y, 'u', grey());
    c.select();
    c
}

#[test]
fn selection_hits_the_pointed_cell_only() {
    let mut s = session(vec![
        (GameCell::new(3, 3, 'a', grey()), Unit::new(Race::Bug, 1)),
        (GameCell::new(5, 3, 'b', grey()), Unit::new(Race::Bug, 1)),
        (GameCell::new(9, 9, 'c', grey()), Unit::new(Race::Human, 1)),
    ]);
    s.mouse = (5, 3);
    s.select_cells();
    assert!(!s.world[0].0.selected());
    assert!(s.world[1].0.selected());
    assert!(!s.world[2].0.selected());
    assert!(s.selected);
}

#[test]
fn selection_on_empty_cell_clears_everything() {
    let mut s = session(vec![
        (selected_cell(3, 3), Unit::new(Race::Bug, 1)),
        (GameCell::new(5, 3, 'b', grey()), Unit::new(Race::Bug, 1)),
    ]);
    s.mouse = (7, 7);
    s.select_cells();
    assert!(!s.world[0].0.selected());
    assert!(!s.world[1].0.selected());
    assert!(!s.selected);
}

#[test]
fn selection_is_exclusive_after_reselect() {
    let mut s = session(vec![
        (selected_cell(3, 3), Unit::new(Race::Bug, 1)),
        (GameCell::new(5, 3, 'b', grey()), Unit::new(Race::Bug, 1)),
    ]);
    s.mouse = (5, 3);
    s.select_cells();
    let picked: usize = s
        .world
        .iter()
        .filter(|e| e.0.selected())
        .count();
    assert_eq!(picked, 1);
    assert!(s.world[1].0.selected());
}

#[test]
fn legal_move_updates_position_and_budget() {
    let mut s = session(vec![
        (selected_cell(10, 10), Unit::new(Race::Bug, 2)),
        (GameCell::new(20, 20, 'b', grey()), Unit::new(Race::Human, 2)),
    ]);
    s.turn = Race::Bug;
    s.mouse = (12, 8);
    s.move_cells();
    assert_eq!(s.world[0].0.x(), 12);
    assert_eq!(s.world[0].0.y(), 8);
    assert_eq!(s.world[0].1.num_moves(), (0, 1));
    assert_eq!(s.mode, Mode::Select);
}

#[test]
fn move_with_budget_left_keeps_move_mode() {
    let mut s = session(vec![
        (selected_cell(10, 10), Unit::new(Race::Bug, 2).with_num_moves(2)),
    ]);
    s.mode = Mode::Move;
    s.mouse = (11, 10);
    s.move_cells();
    assert_eq!(s.world[0].0.x(), 11);
    assert_eq!(s.world[0].1.num_moves(), (1, 2));
    assert_eq!(s.mode, Mode::Move);
}

#[test]
fn move_out_of_range_changes_nothing() {
    let mut s = session(vec![
        (selected_cell(10, 10), Unit::new(Race::Bug, 2)),
    ]);
    s.mouse = (14, 10);
    s.move_cells();
    assert_eq!(s.world[0].0.x(), 10);
    assert_eq!(s.world[0].1.num_moves(), (1, 1));
}

#[test]
fn move_onto_occupied_cell_changes_nothing() {
    let mut s = session(vec![
        (selected_cell(10, 10), Unit::new(Race::Bug, 2)),
        (GameCell::new(11, 10, 'b', grey()), Unit::new(Race::Human, 2)),
    ]);
    s.mouse = (11, 10);
    s.move_cells();
    assert_eq!(s.world[0].0.x(), 10);
    assert_eq!(s.world[0].1.num_moves(), (1, 1));
}

#[test]
fn move_out_of_turn_changes_nothing() {
    let mut s = session(vec![
        (selected_cell(10, 10), Unit::new(Race::Bug, 2)),
    ]);
    s.turn = Race::Human;
    s.mouse = (11, 10);
    s.move_cells();
    assert_eq!(s.world[0].0.x(), 10);
    assert_eq!(s.world[0].1.num_moves(), (1, 1));
}

#[test]
fn move_without_budget_changes_nothing() {
    let mut s = session(vec![
        (selected_cell(10, 10), Unit::new(Race::Bug, 2).with_num_moves(0)),
    ]);
    s.mouse = (11, 10);
    s.move_cells();
    assert_eq!(s.world[0].0.x(), 10);
}

#[test]
fn move_is_validated_from_the_new_position() {
    let mut s = session(vec![
        (selected_cell(10, 10), Unit::new(Race::Bug, 2).with_num_moves(2).with_move_dist(1)),
    ]);
    s.mode = Mode::Move;
    s.mouse = (11, 10);
    s.move_cells();
    assert_eq!(s.world[0].0.x(), 11);
    // two cells from the start, but one from the new position
    s.mouse = (12, 10);
    s.move_cells();
    assert_eq!(s.world[0].0.x(), 12);
    assert_eq!(s.world[0].1.num_moves(), (0, 2));
}

#[test]
fn attack_twice_resolves_damage_and_marks_for_removal() {
    // attacker: faction Human, 2 attacks, damage 3, range 2, at (0, 0);
    // defender: faction Bug, 5 hp, at (1, 1); pointer at (1, 1)
    let attacker = Unit::new(Race::Human, 9)
        .with_num_attacks(2)
        .with_damage(3)
        .with_attack_range(2);
    let mut s = session(vec![
        (selected_cell(0, 0), attacker),
        (GameCell::new(1, 1, 'd', grey()), Unit::new(Race::Bug, 5)),
    ]);
    s.mouse = (1, 1);
    s.attack_units();
    assert_eq!(s.world[1].1.hp(), 2);
    assert_eq!(s.world[0].1.num_attacks(), (1, 2));
    s.attack_units();
    assert_eq!(s.world[1].1.hp(), -1);
    assert_eq!(s.world[0].1.num_attacks(), (0, 2));
    // the defender is now marked for removal and cleanup takes it out
    s.clear_cells();
    assert_eq!(s.world.len(), 1);
    assert_eq!(s.world[0].1.hp(), 9);
}

#[test]
fn attack_on_friend_deals_nothing() {
    let mut s = session(vec![
        (selected_cell(0, 0), Unit::new(Race::Bug, 2).with_damage(3)),
        (GameCell::new(1, 1, 'f', grey()), Unit::new(Race::Bug, 5)),
    ]);
    s.mouse = (1, 1);
    s.attack_units();
    assert_eq!(s.world[1].1.hp(), 5);
    assert_eq!(s.world[0].1.num_attacks(), (1, 1));
}

#[test]
fn attack_out_of_range_deals_nothing() {
    let mut s = session(vec![
        (selected_cell(0, 0), Unit::new(Race::Bug, 2).with_attack_range(1)),
        (GameCell::new(2, 0, 'd', grey()), Unit::new(Race::Human, 5)),
    ]);
    s.mouse = (2, 0);
    s.attack_units();
    assert_eq!(s.world[1].1.hp(), 5);
}

#[test]
fn attack_with_exhausted_budget_deals_nothing() {
    let mut s = session(vec![
        (selected_cell(0, 0), Unit::new(Race::Bug, 2).with_num_attacks(0).with_damage(4)),
        (GameCell::new(1, 1, 'd', grey()), Unit::new(Race::Human, 5)),
    ]);
    s.mouse = (1, 1);
    s.attack_units();
    assert_eq!(s.world[1].1.hp(), 5);
    assert_eq!(s.world[0].1.num_attacks(), (0, 0));
}

#[test]
fn spawn_consumes_the_single_charge() {
    // a spawner with interceptor charges (1, 2) produces exactly one new
    // entity, decrementing its charge to 0; a second build does nothing
    let mut spawner = Unit::new_war_carrier();
    let _ = spawner.make_interceptor(0, 0);
    assert_eq!(spawner.num_interceptors(), (1, 2));
    let mut s = session(vec![(selected_cell(15, 22), spawner)]);
    s.turn = Race::Bionic;
    s.selected = true;
    s.mouse = (16, 22);
    s.make_units();
    assert_eq!(s.world.len(), 2);
    assert_eq!(s.world[0].1.num_interceptors(), (0, 2));
    assert_eq!(s.world[1].0.x(), 16);
    assert_eq!(s.world[1].0.y(), 22);
    assert_eq!(s.world[1].0.symbol(), '^');
    assert_eq!(s.world[1].1.race(), Race::Bionic);
    assert_eq!(s.world[1].1.hp(), 1);
    assert_eq!(s.world[1].1.num_moves(), (2, 2));
    assert_eq!(s.world[1].1.num_attacks(), (2, 2));
    assert_eq!(s.world[1].1.attack_range(), 1);
    s.make_units();
    assert_eq!(s.world.len(), 2);
    assert_eq!(s.world[0].1.num_interceptors(), (0, 2));
}

#[test]
fn spawn_out_of_turn_does_nothing() {
    let mut s = session(vec![(selected_cell(15, 22), Unit::new_war_carrier())]);
    s.turn = Race::Bug;
    s.selected = true;
    s.mouse = (16, 22);
    s.make_units();
    assert_eq!(s.world.len(), 1);
    assert_eq!(s.world[0].1.num_interceptors(), (2, 2));
}

#[test]
fn cleanup_removes_the_dead_and_is_idempotent() {
    let mut s = session(vec![
        (GameCell::new(1, 1, 'a', grey()), Unit::new(Race::Bug, 0)),
        (GameCell::new(2, 2, 'b', grey()), Unit::new(Race::Bug, 3)),
        (GameCell::new(3, 3, 'c', grey()), Unit::new(Race::Human, -2)),
        (GameCell::new(4, 4, 'd', grey()), Unit::new(Race::Human, 1)),
    ]);
    s.clear_cells();
    assert_eq!(s.world.len(), 2);
    assert_eq!(s.world[0].0.x(), 2);
    assert_eq!(s.world[1].0.x(), 4);
    s.clear_cells();
    assert_eq!(s.world.len(), 2);
    assert_eq!(s.world[0].0.x(), 2);
    assert_eq!(s.world[1].0.x(), 4);
}

#[test]
fn three_end_turns_cycle_back_and_recharge() {
    let spent = Unit {
        num_moves: (0, 2),
        num_attacks: (1, 3),
        num_interceptors: (0, 1),
        ..Unit::new(Race::Bug, 4)
    };
    let mut s = session(vec![(GameCell::new(1, 1, 'a', grey()), spent)]);
    s.advance_turn();
    assert_eq!(s.turn, Race::Human);
    assert_eq!(s.world[0].1.num_moves(), (0, 2));
    s.advance_turn();
    assert_eq!(s.turn, Race::Bionic);
    assert_eq!(s.world[0].1.num_moves(), (0, 2));
    s.advance_turn();
    assert_eq!(s.turn, Race::Bug);
    assert_eq!(s.world[0].1.num_moves(), (2, 2));
    assert_eq!(s.world[0].1.num_attacks(), (3, 3));
    assert_eq!(s.world[0].1.num_interceptors(), (1, 1));
}

#[test]
fn lifespan_of_one_dies_on_the_recharge() {
    let ephemeral = Unit::new(Race::Bionic, 1).with_lifespan(1);
    let mut s = session(vec![(GameCell::new(1, 1, 'a', grey()), ephemeral)]);
    s.turn = Race::Bionic;
    s.advance_turn();
    assert_eq!(s.turn, Race::Bug);
    assert_eq!(s.world[0].1.hp(), 0);
    s.clear_cells();
    assert_eq!(s.world.len(), 0);
}

#[test]
fn lifespan_of_two_survives_one_recharge() {
    let ephemeral = Unit::new(Race::Bionic, 1).with_lifespan(2);
    let mut s = session(vec![(GameCell::new(1, 1, 'a', grey()), ephemeral)]);
    s.turn = Race::Bionic;
    s.advance_turn();
    assert_eq!(s.world[0].1.hp(), 1);
    s.turn = Race::Bionic;
    s.advance_turn();
    assert_eq!(s.world[0].1.hp(), 0);
}

#[test]
fn keys_gate_on_selection_and_escape_always_cancels() {
    let mut s = session(vec![]);
    s.selected = false;
    s.key_input(Some(Key::M));
    assert_eq!(s.mode, Mode::Select);
    s.selected = true;
    s.key_input(Some(Key::M));
    assert_eq!(s.mode, Mode::Move);
    s.key_input(Some(Key::A));
    assert_eq!(s.mode, Mode::Attack);
    s.key_input(Some(Key::B));
    assert_eq!(s.mode, Mode::Build);
    s.selected = false;
    s.key_input(Some(Key::Escape));
    assert_eq!(s.mode, Mode::Select);
    s.key_input(None);
    assert_eq!(s.mode, Mode::Select);
}
