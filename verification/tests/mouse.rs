use lazy_peon::backend::MouseBackend;
use lazy_peon::generator::{RandomWalk, StepGenerator};
use lazy_peon::mouse::{plan, reconcile, MouseAgent};
use lazy_peon::types::Position;
use rand::SeedableRng;
use std::cell::RefCell;
use std::rc::Rc;

struct Screen {
    pointer: (i32, i32),
    moves: Vec<(i32, i32)>,
    reads: usize,
    width: i32,
    height: i32,
}

impl Screen {
    fn shared(x: i32, y: i32) -> Rc<RefCell<Screen>> {
        Rc::new(RefCell::new(Screen {
            pointer: (x, y),
            moves: Vec::new(),
            reads: 0,
            width: 1_000_000,
            height: 1_000_000,
        }))
    }
}

struct ScreenBackend {
    screen: Rc<RefCell<Screen>>,
}

impl MouseBackend for ScreenBackend {
    fn move_mouse(&mut self, pos: Position) {
        let (x, y) = pos.to_pixels();
        let mut screen = self.screen.borrow_mut();
        screen.moves.push((x, y));
        let x = x.max(0).min(screen.width - 1);
        let y = y.max(0).min(screen.height - 1);
        screen.pointer = (x, y);
    }

    fn read_mouse_position(&self) -> Position {
        let mut screen = self.screen.borrow_mut();
        screen.reads += 1;
        Position::from_pixels(screen.pointer.0, screen.pointer.1)
    }
}

struct FixedStep {
    step: Position,
}

impl StepGenerator for FixedStep {
    fn step(&mut self) -> Position {
        self.step
    }
}

fn agent_at(
    x: i32,
    y: i32,
    step: Position,
) -> (Rc<RefCell<Screen>>, MouseAgent<ScreenBackend, FixedStep>) {
    let screen = Screen::shared(x, y);
    let backend = ScreenBackend { screen: screen.clone() };
    let agent = MouseAgent::new(backend, FixedStep { step });
    (screen, agent)
}

#[test]
fn new_reads_the_backend_once_and_commands_nothing() {
    let (screen, agent) = agent_at(100, 100, Position::new(0, 1000));
    assert_eq!(agent.intended_pos(), Position::new(100_000, 100_000));
    assert_eq!(agent.last_read_pos(), Position::new(100_000, 100_000));
    assert_eq!(screen.borrow().reads, 1);
    assert!(screen.borrow().moves.is_empty());
}

#[test]
fn starting_at_takes_the_given_position() {
    let screen = Screen::shared(5, 5);
    let backend = ScreenBackend { screen: screen.clone() };
    let agent = MouseAgent::starting_at(
        backend,
        FixedStep { step: Position::new(0, 0) },
        Position::new(42_500, -7_250),
    );
    assert_eq!(agent.intended_pos(), Position::new(42_500, -7_250));
    assert_eq!(agent.last_read_pos(), Position::new(42_500, -7_250));
    assert_eq!(screen.borrow().reads, 0);
}

#[test]
fn one_pixel_of_drift_stays_silent_and_two_are_commanded() {
    let (screen, mut agent) = agent_at(100, 100, Position::new(0, 1000));

    let first = agent.update();
    assert_eq!(first.moved_to, None);
    assert!(screen.borrow().moves.is_empty());
    assert_eq!(agent.intended_pos(), Position::new(100_000, 101_000));

    let second = agent.update();
    assert_eq!(second.moved_to, Some(Position::new(100_000, 102_000)));
    assert_eq!(screen.borrow().moves, vec![(100, 102)]);
    assert_eq!(agent.intended_pos(), Position::new(100_000, 102_000));
    assert_eq!(agent.last_read_pos(), Position::new(100_000, 102_000));
}

#[test]
fn a_drag_by_hand_is_not_pulled_back() {
    let (screen, mut agent) = agent_at(100, 100, Position::new(0, 1000));
    agent.update();
    screen.borrow_mut().pointer = (200, 200);

    let tick = agent.update();
    assert_eq!(tick.observed, Position::new(200_000, 200_000));
    assert_eq!(tick.moved_to, None);
    assert!(screen.borrow().moves.is_empty());
    assert_eq!(screen.borrow().pointer, (200, 200));
    assert_eq!(agent.intended_pos(), Position::new(200_000, 201_000));
    assert_eq!(agent.last_read_pos(), Position::new(200_000, 200_000));
}

#[test]
fn a_jump_on_one_axis_alone_resets_the_intended_position() {
    let (screen, mut agent) = agent_at(100, 100, Position::new(250, 0));
    agent.update();
    agent.update();
    assert_eq!(agent.intended_pos(), Position::new(100_500, 100_000));
    screen.borrow_mut().pointer = (100, 102);

    let tick = agent.update();
    assert_eq!(tick.moved_to, None);
    assert_eq!(agent.intended_pos(), Position::new(100_250, 102_000));
}

#[test]
fn a_one_pixel_nudge_by_hand_is_taken_for_noise() {
    let (screen, mut agent) = agent_at(100, 100, Position::new(250, 0));
    agent.update();
    screen.borrow_mut().pointer = (101, 99);

    let tick = agent.update();
    assert_eq!(tick.observed, Position::new(101_000, 99_000));
    assert_eq!(tick.moved_to, None);
    assert_eq!(agent.intended_pos(), Position::new(100_500, 100_000));
}

#[test]
fn an_idle_tick_commands_nothing() {
    let (screen, mut agent) = agent_at(640, 480, Position::new(0, 0));
    for _ in 0..50 {
        let tick = agent.update();
        assert_eq!(tick.moved_to, None);
        assert_eq!(tick.observed, tick.settled);
    }
    assert!(screen.borrow().moves.is_empty());
    assert_eq!(agent.intended_pos(), Position::new(640_000, 480_000));
}

#[test]
fn sub_pixel_steps_add_up_between_commands() {
    let (screen, mut agent) = agent_at(10, 10, Position::new(300, 0));
    let mut commanded = 0;
    for tick_number in 1..=10i64 {
        let tick = agent.update();
        assert_eq!(agent.intended_pos(), Position::new(10_000 + 300 * tick_number, 10_000));
        if tick.moved_to.is_some() {
            commanded += 1;
        }
    }
    // 1200 units after four ticks: to pixel 11. From there 2100 after the
    // seventh: to pixel 12. From there 3000 after the tenth: no more than a
    // pixel away.
    assert_eq!(commanded, 2);
    assert_eq!(screen.borrow().moves, vec![(11, 10), (12, 10)]);
}

#[test]
fn a_pointer_held_at_the_edge_is_commanded_again() {
    let (screen, mut agent) = agent_at(0, 0, Position::new(-1500, 0));
    let first = agent.update();
    assert_eq!(first.moved_to, Some(Position::new(-1500, 0)));
    assert_eq!(first.settled, Position::new(0, 0));
    let second = agent.update();
    assert_eq!(second.moved_to, Some(Position::new(-3000, 0)));
    assert_eq!(screen.borrow().moves, vec![(-1, 0), (-3, 0)]);
    assert_eq!(screen.borrow().pointer, (0, 0));
}

#[test]
fn each_tick_reads_the_backend_twice() {
    let (screen, mut agent) = agent_at(3, 4, Position::new(0, 2000));
    agent.update();
    assert_eq!(screen.borrow().reads, 3);
    agent.update();
    assert_eq!(screen.borrow().reads, 5);
}

#[test]
fn plan_follows_the_threshold_exactly() {
    let here = Position::new(100_000, 100_000);
    let at_threshold = plan(here, here, here, Position::new(1000, -1000));
    assert_eq!(at_threshold.intended, Position::new(101_000, 99_000));
    assert_eq!(at_threshold.move_to, None);

    let past_threshold = plan(here, here, here, Position::new(0, -1001));
    assert_eq!(past_threshold.intended, Position::new(100_000, 98_999));
    assert_eq!(past_threshold.move_to, Some(Position::new(100_000, 98_999)));
}

#[test]
fn plan_commands_again_where_the_pointer_did_not_follow() {
    let origin = Position::new(0, 0);
    let drifted = Position::new(-5_000, 0);
    let decided = plan(drifted, origin, origin, Position::new(0, 0));
    assert_eq!(decided.intended, drifted);
    assert_eq!(decided.move_to, Some(drifted));
}

#[test]
fn plan_forgets_the_drift_after_a_manual_move() {
    let last_read = Position::new(100_000, 100_000);
    let observed = Position::new(200_000, 200_000);
    let step = Position::new(-400, 0);
    let one = plan(Position::new(100_900, 100_000), last_read, observed, step);
    let other = plan(Position::new(99_100, 100_700), last_read, observed, step);
    assert_eq!(one.intended, Position::new(199_600, 200_000));
    assert_eq!(other.intended, one.intended);
    assert_eq!(one.move_to, None);
    assert_eq!(other.move_to, None);
}

#[test]
fn plan_saturates_at_the_end_of_the_range() {
    let edge = Position::new(i64::MAX - 10, i64::MIN + 10);
    let decided = plan(edge, edge, edge, Position::new(500, -500));
    assert_eq!(decided.intended, Position::new(i64::MAX, i64::MIN));
    assert_eq!(decided.move_to, None);
}

#[test]
fn reconcile_keeps_or_replaces_the_intended_position() {
    let intended = Position::new(5_400, 5_400);
    let last_read = Position::new(5_000, 5_000);
    assert_eq!(reconcile(intended, last_read, Position::new(6_000, 4_000)), intended);
    assert_eq!(
        reconcile(intended, last_read, Position::new(6_001, 5_000)),
        Position::new(6_001, 5_000)
    );
    assert_eq!(
        reconcile(intended, last_read, Position::new(5_000, 3_999)),
        Position::new(5_000, 3_999)
    );
}

#[test]
fn main_update() {
    let screen = Screen::shared(500, 500);
    let backend = ScreenBackend { screen: screen.clone() };
    let walk = RandomWalk::new(700, rand::rngs::StdRng::seed_from_u64(2024));
    let mut agent = MouseAgent::new(backend, walk);
    let mut sum = Position::new(500_000, 500_000);
    let mut commanded = Vec::new();
    for _ in 0..2000 {
        let before = agent.last_read_pos();
        let tick = agent.update();
        assert_eq!(tick.observed, before);
        sum = sum.offset(tick.step);
        assert_eq!(agent.intended_pos(), sum);
        assert_eq!(agent.last_read_pos(), tick.settled);
        match tick.moved_to {
            Some(target) => {
                assert_eq!(target, sum);
                assert!(target.diverges_from(tick.observed));
                commanded.push(target.to_pixels());
            }
            None => assert!(!sum.diverges_from(tick.observed)),
        }
    }
    assert!(!commanded.is_empty());
    assert_eq!(screen.borrow().moves, commanded);
}

#[test]
fn update() {
    let screen = Screen::shared(300, 300);
    let backend = ScreenBackend { screen: screen.clone() };
    let walk = RandomWalk::new(1000, rand::rngs::StdRng::seed_from_u64(99));
    let mut agent = MouseAgent::new(backend, walk);
    for round in 0..200 {
        if round % 20 == 19 {
            let (x, y) = screen.borrow().pointer;
            screen.borrow_mut().pointer = (x + 50, y - 30);
        }
        let before = agent.last_read_pos();
        let intended = agent.intended_pos();
        let tick = agent.update();
        let expected = plan(intended, before, tick.observed, tick.step);
        assert_eq!(agent.intended_pos(), expected.intended);
        assert_eq!(tick.moved_to, expected.move_to);
        if round % 20 == 19 {
            assert_eq!(agent.intended_pos(), tick.observed.offset(tick.step));
            assert_eq!(tick.moved_to, None);
        }
    }
}
