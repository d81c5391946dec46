use gravity_sim::{Body, Color, DrawCommand, Position, TimeStep, Universe, Vec3};

fn red() -> Color {
    Color::Named(String::from("red"))
}

fn body_at(mass: u64, x: i64, y: i64, z: i64) -> Body {
    Body::new(mass, red(), Some(Vec3::new(x, y, z)), None, None)
}

#[test]
fn new_body_defaults_to_zero_vectors() {
    let b = Body::new(5, Color::Rgb(1, 2, 3), None, None, None);
    assert_eq!(b.id, "");
    assert_eq!(b.mass, 5);
    assert_eq!(b.position, Vec3::zero());
    assert_eq!(b.velocity, Vec3::zero());
    assert_eq!(b.force, Vec3::zero());
    assert_eq!(b.color, Color::Rgb(1, 2, 3));
}

#[test]
fn new_universe_is_empty_with_default_gravity() {
    let u = Universe::new();
    assert_eq!(u.body_count(), 0);
    assert_eq!(u.gravity(), Vec3::new(0, -9_810_000, 0));
}

#[test]
fn free_fall_one_frame() {
    let mut u = Universe::new();
    u.add_body(String::from("a"), body_at(1000, 0, 0, 0));
    u.tick(Some(TimeStep::new(1, 60)));
    assert_eq!(u.body(0).velocity, Vec3::new(0, -163_500, 0));
    assert_eq!(u.get_position(String::from("a")), Some(Position(0, -2725, 0)));
}

#[test]
fn default_step_is_a_sixtieth() {
    let mut u = Universe::new();
    u.add_body(String::from("a"), body_at(7, 10, 20, 30));
    u.tick(None);
    assert_eq!(u.body(0).velocity, Vec3::new(0, -163_500, 0));
    assert_eq!(u.get_position(String::from("a")), Some(Position(10, 20 - 2725, 30)));
}

#[test]
fn half_second_step() {
    let mut u = Universe::new();
    u.add_body(String::from("a"), Body::new(3, red(), None, Some(Vec3::new(2_000_000, 0, -1_000_000)), None));
    u.tick(Some(TimeStep::new(1, 2)));
    assert_eq!(u.body(0).velocity, Vec3::new(2_000_000, -4_905_000, -1_000_000));
    assert_eq!(u.get_position(String::from("a")), Some(Position(1_000_000, -2_452_500, -500_000)));
}

#[test]
fn inexact_step_rounds_toward_zero() {
    let mut u = Universe::new();
    u.add_body(String::from("a"), body_at(1, 0, 0, 0));
    u.tick(Some(TimeStep::new(1, 7)));
    // 9_810_000 / 7 = 1_401_428.57..., then 1_401_428 / 7 = 200_204
    assert_eq!(u.body(0).velocity, Vec3::new(0, -1_401_428, 0));
    assert_eq!(u.get_position(String::from("a")), Some(Position(0, -200_204, 0)));
}

#[test]
fn tick_resets_force() {
    let mut u = Universe::new();
    let b = Body::new(10, red(), None, None, Some(Vec3::new(5, -6, 7)));
    u.add_body(String::from("a"), b);
    u.add_body(String::from("b"), body_at(20, 1, 1, 1));
    u.tick(None);
    assert_eq!(u.body(0).force, Vec3::zero());
    assert_eq!(u.body(1).force, Vec3::zero());
}

#[test]
fn trajectory_does_not_depend_on_mass() {
    let mut u = Universe::new();
    let v = Vec3::new(300, 4_000, -50);
    u.add_body(String::from("light"), Body::new(1, red(), Some(Vec3::new(5, 6, 7)), Some(v), None));
    u.add_body(String::from("heavy"), Body::new(1_000_000_000, red(), Some(Vec3::new(5, 6, 7)), Some(v), None));
    for _ in 0..100 {
        u.tick(None);
    }
    let a = u.get_position(String::from("light"));
    assert!(a.is_some());
    assert_eq!(a, u.get_position(String::from("heavy")));
    assert_eq!(u.body(0).velocity, u.body(1).velocity);
}

#[test]
fn registry_round_trip() {
    let mut u = Universe::new();
    u.add_body(String::from("x"), body_at(50, 3, 4, 5));
    assert_eq!(u.get_position(String::from("x")), Some(Position(3, 4, 5)));
    let stored = u.body(0).clone();
    assert_eq!(stored.id, "x");
    u.remove_body(stored);
    assert_eq!(u.get_position(String::from("x")), None);
    assert_eq!(u.body_count(), 0);
}

#[test]
fn remove_needs_every_field_equal() {
    let mut u = Universe::new();
    u.add_body(String::from("x"), body_at(50, 3, 4, 5));
    // the identifier is still empty on this value
    u.remove_body(body_at(50, 3, 4, 5));
    assert_eq!(u.body_count(), 1);
    let mut other = u.body(0).clone();
    other.color = Color::Rgb(0, 0, 0);
    u.remove_body(other);
    assert_eq!(u.body_count(), 1);
}

#[test]
fn remove_keeps_order_of_the_rest() {
    let mut u = Universe::new();
    u.add_body(String::from("a"), body_at(1, 1, 0, 0));
    u.add_body(String::from("b"), body_at(1, 2, 0, 0));
    u.add_body(String::from("c"), body_at(1, 3, 0, 0));
    let b = u.body(1).clone();
    u.remove_body(b);
    assert_eq!(u.body_count(), 2);
    assert_eq!(u.body(0).id, "a");
    assert_eq!(u.body(1).id, "c");
}

#[test]
fn duplicate_identifier_finds_the_first() {
    let mut u = Universe::new();
    u.add_body(String::from("x"), body_at(1, 1, 1, 1));
    u.add_body(String::from("x"), body_at(1, 2, 2, 2));
    assert_eq!(u.get_position(String::from("x")), Some(Position(1, 1, 1)));
    assert_eq!(u.get_position(String::from("y")), None);
}

#[test]
fn empty_tick_is_a_no_op() {
    let mut u = Universe::new();
    assert!(u.can_tick(None));
    u.tick(None);
    u.tick(Some(TimeStep::new(5, 1)));
    assert_eq!(u.body_count(), 0);
    assert_eq!(u.gravity(), Vec3::new(0, -9_810_000, 0));
}

#[test]
fn can_tick_detects_overflow() {
    let mut u = Universe::new();
    u.add_body(String::from("a"), body_at(1, 0, i64::MIN + 1000, 0));
    assert!(!u.can_tick(None));
    let mut w = Universe::new();
    w.add_body(String::from("a"), body_at(1, 0, i64::MIN + 3000, 0));
    assert!(w.can_tick(None));
    w.tick(None);
    assert_eq!(w.get_position(String::from("a")), Some(Position(0, i64::MIN + 275, 0)));
}

#[test]
fn render_draws_in_insertion_order() {
    let mut u = Universe::new();
    u.add_body(String::from("a"), Body::new(15_000, Color::Rgb(255, 0, 0), Some(Vec3::new(1_000_000, 2_000_000, 0)), None, None));
    u.add_body(String::from("b"), Body::new(14_999, Color::Named(String::from("blue")), Some(Vec3::new(0, 0, 9)), None, None));
    u.add_body(String::from("c"), Body::new(4_999, Color::Rgb(0, 255, 0), Some(Vec3::new(-5, 700_000_000, 0)), None, None));
    let cmds = u.render(800, 600);
    assert_eq!(cmds.len(), 4);
    assert!(matches!(cmds[0], DrawCommand::Clear { width: 800, height: 600 }));
    match &cmds[1] {
        DrawCommand::Disc { x, y, radius, color } => {
            assert_eq!((*x, *y, *radius), (1_000_000, 598_000_000, 2));
            assert_eq!(*color, Color::Rgb(255, 0, 0));
        }
        _ => panic!("expected a disc"),
    }
    match &cmds[2] {
        DrawCommand::Disc { x, y, radius, color } => {
            assert_eq!((*x, *y, *radius), (0, 600_000_000, 1));
            assert_eq!(*color, Color::Named(String::from("blue")));
        }
        _ => panic!("expected a disc"),
    }
    match &cmds[3] {
        DrawCommand::Disc { x, y, radius, color } => {
            assert_eq!((*x, *y, *radius), (-5, -100_000_000, 0));
            assert_eq!(*color, Color::Rgb(0, 255, 0));
        }
        _ => panic!("expected a disc"),
    }
}

#[test]
fn render_empty_only_clears() {
    let u = Universe::new();
    let cmds = u.render(10, 20);
    assert_eq!(cmds.len(), 1);
    assert!(matches!(cmds[0], DrawCommand::Clear { width: 10, height: 20 }));
}

#[test]
fn one_second_of_free_fall() {
    let mut u = Universe::new();
    u.add_body(String::from("ball"), body_at(1000, 0, 0, 0));
    let mut expected_y: i64 = 0;
    let mut v: i64 = 0;
    for _ in 0..60 {
        u.tick(Some(TimeStep::new(1, 60)));
        v -= 163_500;
        expected_y += v / 60;
    }
    let p = u.get_position(String::from("ball")).unwrap();
    assert_eq!(p, Position(0, expected_y, 0));
    assert_eq!(p.1, -4_986_750);
    let expected = -0.5 * 9.81 * 1.0 * 1.0;
    let got = p.1 as f64 / 1_000_000.0;
    assert!(((got - expected) / expected).abs() < 0.05);
}
