//! Tests of the session frame cycle, the raw-input edge, the end-turn
//! region, the fixed starting roster, and square-region containment.

use papercraft::CurrentState;
use papercraft::GameCell;
use papercraft::Key;
use papercraft::Mode;
use papercraft::Race;
use papercraft::Rgb;
use papercraft::State;
use papercraft::Unit;
use papercraft::in_range;

fn red() -> Rgb {
    Rgb::from_u8(170, 20, 0)
}

#[test]
fn square_region_boundary_is_inclusive() {
    // exactly radius away on either axis is in range
    assert!(in_range(10, 10, 2, 12, 10));
    assert!(in_range(10, 10, 2, 8, 10));
    assert!(in_range(10, 10, 2, 10, 12));
    assert!(in_range(10, 10, 2, 10, 8));
    assert!(in_range(10, 10, 2, 12, 12));
    assert!(in_range(10, 10, 2, 8, 8));
    // radius + 1 away is not
    assert!(!in_range(10, 10, 2, 13, 10));
    assert!(!in_range(10, 10, 2, 7, 10));
    assert!(!in_range(10, 10, 2, 10, 13));
    assert!(!in_range(10, 10, 2, 10, 7));
    // extreme coordinates do not overflow
    assert!(!in_range(i32::MIN, i32::MIN, 1, i32::MAX, i32::MAX));
    assert!(in_range(0, 0, i32::MAX, i32::MIN + 1, i32::MAX));
}

#[test]
fn new_session_starts_on_the_menu_with_the_fixed_roster() {
    let s = State::new(80, 40);
    assert!(matches!(s.curr_state(), CurrentState::Menu));
    assert_eq!(s.turn(), Race::Bug);
    assert_eq!(s.mode(), Mode::Select);
    assert!(!s.selected());
    let roster = s.entities();
    assert_eq!(roster.len(), 13);
    let bugs = roster.iter().filter(|e| e.1.race() == Race::Bug).count();
    let humans = roster.iter().filter(|e| e.1.race() == Race::Human).count();
    let bionics = roster.iter().filter(|e| e.1.race() == Race::Bionic).count();
    assert_eq!((bugs, humans, bionics), (5, 3, 5));
    assert!(roster.iter().all(|e| !e.0.selected()));
    // spot checks of the roster's stats
    assert_eq!(roster[0].0.x(), 10);
    assert_eq!(roster[0].0.symbol(), '*');
    assert_eq!(roster[0].1.attack_range(), 1);
    assert_eq!(roster[4].1.damage(), 2);
    assert_eq!(roster[12].0.symbol(), 'H');
    assert_eq!(roster[12].1.num_interceptors(), (2, 2));
}

#[test]
fn space_leaves_the_menu_and_other_keys_do_not() {
    let mut s = State::new(80, 40);
    s.tick((0, 0), false, Some(Key::M));
    assert!(matches!(s.curr_state(), CurrentState::Menu));
    s.tick((0, 0), false, None);
    assert!(matches!(s.curr_state(), CurrentState::Menu));
    s.tick((0, 0), false, Some(Key::Space));
    assert!(matches!(s.curr_state(), CurrentState::Playing));
}

#[test]
fn click_edge_takes_a_press_then_a_release() {
    let mut s = State::new(80, 40);
    s.tick((0, 0), false, Some(Key::Space));
    // first click event: press pending, nothing dispatched
    s.tick((10, 10), true, None);
    assert!(!s.selected());
    // second click event: the gesture completes and select dispatches
    s.tick((10, 10), true, None);
    assert!(s.selected());
    assert!(s.entities()[0].0.selected());
}

#[test]
fn released_click_in_the_end_turn_region_advances_the_turn() {
    let mut s = State::new(80, 40);
    s.tick((0, 0), false, Some(Key::Space));
    assert_eq!(s.turn(), Race::Bug);
    s.tick((75, 1), true, None);
    s.tick((75, 1), true, None);
    assert_eq!(s.turn(), Race::Human);
}

#[test]
fn released_click_outside_the_end_turn_region_does_not_advance() {
    let mut s = State::new(80, 40);
    s.tick((0, 0), false, Some(Key::Space));
    s.tick((69, 1), true, None);
    s.tick((69, 1), true, None);
    assert_eq!(s.turn(), Race::Bug);
    s.tick((75, 3), true, None);
    s.tick((75, 3), true, None);
    assert_eq!(s.turn(), Race::Bug);
}

#[test]
fn hover_flag_tracks_the_stored_pointer() {
    let mut s = State::new(80, 40);
    s.tick((0, 0), false, Some(Key::Space));
    s.tick((75, 1), false, None);
    assert!(s.hovering_end_turn());
    s.tick((0, 0), false, None);
    assert!(!s.hovering_end_turn());
}

#[test]
fn a_full_selected_move_through_the_frame_cycle() {
    let mut s = State::new(80, 40);
    s.tick((0, 0), false, Some(Key::Space));
    // select the spider at (10, 10)
    s.tick((10, 10), true, None);
    s.tick((10, 10), true, None);
    assert!(s.selected());
    // enter move mode and complete a click on (12, 10)
    s.tick((10, 10), false, Some(Key::M));
    assert_eq!(s.mode(), Mode::Move);
    s.tick((12, 10), true, None);
    s.tick((12, 10), true, None);
    let moved = s
        .entities()
        .iter()
        .any(|e| e.0.x() == 12 && e.0.y() == 10 && e.0.selected());
    assert!(moved);
    // the budget of one is spent, so the mode fell back to select
    assert_eq!(s.mode(), Mode::Select);
}

#[test]
fn a_full_build_through_the_frame_cycle() {
    let mut s = State::new(80, 40);
    s.tick((0, 0), false, Some(Key::Space));
    // two end-turn gestures: Bug -> Human -> Bionic
    s.tick((75, 1), true, None);
    s.tick((75, 1), true, None);
    s.tick((75, 1), true, None);
    s.tick((75, 1), true, None);
    assert_eq!(s.turn(), Race::Bionic);
    // select the war carrier and enter build mode
    s.tick((15, 22), true, None);
    s.tick((15, 22), true, None);
    assert!(s.selected());
    s.tick((15, 22), false, Some(Key::B));
    assert_eq!(s.mode(), Mode::Build);
    let before = s.entities().len();
    // a completed click next to the carrier spawns the interceptor
    s.tick((16, 22), true, None);
    s.tick((16, 22), true, None);
    assert_eq!(s.entities().len(), before + 1);
    let spawned = s
        .entities()
        .iter()
        .any(|e| e.0.x() == 16 && e.0.y() == 22 && e.0.symbol() == '^');
    assert!(spawned);
}

#[test]
fn cell_accessors_and_background_color() {
    let mut c = GameCell::new(4, 5, 'x', red());
    assert_eq!(c.x(), 4);
    assert_eq!(c.y(), 5);
    assert_eq!(c.symbol(), 'x');
    assert_eq!(c.color(), red());
    assert_eq!(c.bg_color(), Rgb::from_u8(0, 0, 0));
    assert!(!c.selected());
    c.select();
    assert!(c.selected());
    assert_eq!(c.bg_color(), Rgb::from_u8(255, 255, 255));
    c.select();
    assert!(!c.selected());
    c.select();
    c.deselect();
    assert!(!c.selected());
    c.move_pos(-7, 9);
    assert_eq!((c.x(), c.y()), (-7, 9));
}

#[test]
fn unit_builders_and_effective_damage() {
    let u = Unit::new(Race::Human, 4)
        .with_num_moves(3)
        .with_move_dist(2)
        .with_damage(5)
        .with_num_attacks(2)
        .with_attack_range(4)
        .with_lifespan(6);
    assert_eq!(u.race(), Race::Human);
    assert_eq!(u.hp(), 4);
    assert_eq!(u.num_moves(), (3, 3));
    assert_eq!(u.move_dist(), 2);
    assert_eq!(u.num_attacks(), (2, 2));
    assert_eq!(u.attack_range(), 4);
    assert!(u.can_move());
    assert_eq!(u.damage(), 5);
    let exhausted = u.with_num_attacks(0);
    assert_eq!(exhausted.damage(), 0);
    let mut v = Unit::new(Race::Bug, 9);
    v.use_move();
    assert_eq!(v.num_moves(), (0, 1));
    v.use_move();
    assert_eq!(v.num_moves(), (0, 1));
    v.use_attack();
    assert_eq!(v.num_attacks(), (0, 1));
    v.harm(11);
    assert_eq!(v.hp(), -2);
    // clipping at the machine range instead of overflowing
    v.harm(i32::MAX);
    assert_eq!(v.hp(), i32::MIN);
    v.harm(i32::MIN);
    assert_eq!(v.hp(), 0);
}
