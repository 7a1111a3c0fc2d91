use garlic::physics::{
    apply_engine, apply_gravity, apply_thrust, check_collision, check_win, engine_accel,
    move_rocket, project_path,
};
use garlic::state::{Orbit, Planet, PlanetDef, Rocket, WinCondition};

const EPSILON: f64 = f32::EPSILON as f64;

/// The fixed-point number nearest to `v`.
fn fx(v: f64) -> i64 {
    (v * 1_000_000.0).round() as i64
}

/// The number that a fixed-point value stands for.
fn val(raw: i64) -> f64 {
    raw as f64 / 1_000_000.0
}

/// The velocity or acceleration nearest to `v`, in millionths of a millionth.
fn fv(v: f64) -> i64 {
    (v * 1_000_000_000_000.0).round() as i64
}

/// The number that a velocity or an acceleration stands for.
fn vel(raw: i64) -> f64 {
    raw as f64 / 1_000_000_000_000.0
}

fn make_rocket(x: f64, y: f64, speed_x: f64, speed_y: f64) -> Rocket {
    Rocket {
        x: fx(x),
        y: fx(y),
        speed_x: fv(speed_x),
        speed_y: fv(speed_y),
        orientation: fx(0.0),
        landed: false,
        engine_on: false,
        fuel: fx(20.0),
    }
}

#[test]
fn moves_right() {
    let mut rocket = make_rocket(0.0, 0.0, 100.0, 0.0);
    move_rocket(&mut rocket, fx(1.0));
    assert_eq!(val(rocket.x), 100.0);
    assert_eq!(val(rocket.y), 0.0);
}

#[test]
fn moves_down() {
    let mut rocket = make_rocket(0.0, 0.0, 0.0, 50.0);
    move_rocket(&mut rocket, fx(2.0));
    assert_eq!(val(rocket.x), 0.0);
    assert_eq!(val(rocket.y), 100.0);
}

#[test]
fn moves_diagonally() {
    let mut rocket = make_rocket(10.0, 20.0, 30.0, -40.0);
    move_rocket(&mut rocket, fx(0.5));
    assert_eq!(val(rocket.x), 25.0);
    assert_eq!(val(rocket.y), 0.0);
}

#[test]
fn stationary_with_zero_speed() {
    let mut rocket = make_rocket(5.0, 10.0, 0.0, 0.0);
    move_rocket(&mut rocket, fx(1.0));
    assert_eq!(val(rocket.x), 5.0);
    assert_eq!(val(rocket.y), 10.0);
}

#[test]
fn zero_dt_no_movement() {
    let mut rocket = make_rocket(5.0, 10.0, 100.0, 200.0);
    move_rocket(&mut rocket, fx(0.0));
    assert_eq!(val(rocket.x), 5.0);
    assert_eq!(val(rocket.y), 10.0);
}

fn make_planet(x: f64, y: f64) -> Planet {
    Planet { x: fx(x), y: fx(y), radius: fx(30.0) }
}

#[test]
fn accelerates_toward_planet_on_right() {
    let mut rocket = make_rocket(0.0, 0.0, 0.0, 0.0);
    let planet = make_planet(100.0, 0.0);
    apply_gravity(&mut rocket, &planet, fx(1.0));
    assert!(vel(rocket.speed_x) > 0.0);
    assert_eq!(vel(rocket.speed_y), 0.0);
}

#[test]
fn accelerates_toward_planet_above() {
    let mut rocket = make_rocket(0.0, 100.0, 0.0, 0.0);
    let planet = make_planet(0.0, 0.0);
    apply_gravity(&mut rocket, &planet, fx(1.0));
    assert_eq!(vel(rocket.speed_x), 0.0);
    assert!(vel(rocket.speed_y) < 0.0);
}

#[test]
fn stronger_gravity_when_closer() {
    let mut close = make_rocket(0.0, 0.0, 0.0, 0.0);
    let mut far = make_rocket(0.0, 0.0, 0.0, 0.0);
    let close_planet = make_planet(100.0, 0.0);
    let far_planet = make_planet(1000.0, 0.0);
    apply_gravity(&mut close, &close_planet, fx(1.0));
    apply_gravity(&mut far, &far_planet, fx(1.0));
    assert!(vel(close.speed_x) > vel(far.speed_x));
}

#[test]
fn zero_dt_no_acceleration() {
    let mut rocket = make_rocket(0.0, 0.0, 0.0, 0.0);
    let planet = make_planet(100.0, 0.0);
    apply_gravity(&mut rocket, &planet, fx(0.0));
    assert_eq!(vel(rocket.speed_x), 0.0);
    assert_eq!(vel(rocket.speed_y), 0.0);
}

#[test]
fn accelerates_diagonally() {
    let mut rocket = make_rocket(0.0, 0.0, 0.0, 0.0);
    let planet = make_planet(100.0, 100.0);
    apply_gravity(&mut rocket, &planet, fx(1.0));
    assert!(vel(rocket.speed_x) > 0.0);
    assert!(vel(rocket.speed_y) > 0.0);
    assert!((vel(rocket.speed_x) - vel(rocket.speed_y)).abs() < EPSILON);
}

#[test]
fn larger_planet_stronger_gravity() {
    let mut small = make_rocket(0.0, 0.0, 0.0, 0.0);
    let mut large = make_rocket(0.0, 0.0, 0.0, 0.0);
    let small_planet = Planet { x: fx(100.0), y: fx(0.0), radius: fx(15.0) };
    let large_planet = Planet { x: fx(100.0), y: fx(0.0), radius: fx(30.0) };
    apply_gravity(&mut small, &small_planet, fx(1.0));
    apply_gravity(&mut large, &large_planet, fx(1.0));
    assert!(vel(large.speed_x) > vel(small.speed_x));
}

#[test]
fn gravity_proportional_to_radius_cubed() {
    let mut r30 = make_rocket(0.0, 0.0, 0.0, 0.0);
    let mut r60 = make_rocket(0.0, 0.0, 0.0, 0.0);
    let p30 = Planet { x: fx(100.0), y: fx(0.0), radius: fx(30.0) };
    let p60 = Planet { x: fx(100.0), y: fx(0.0), radius: fx(60.0) };
    apply_gravity(&mut r30, &p30, fx(1.0));
    apply_gravity(&mut r60, &p60, fx(1.0));
    // the ratio is (60/30)^3 = 8
    let ratio = vel(r60.speed_x) / vel(r30.speed_x);
    assert!((ratio - 8.0).abs() < 0.001);
}

#[test]
fn half_radius_one_eighth_gravity() {
    let mut full = make_rocket(0.0, 0.0, 0.0, 0.0);
    let mut half = make_rocket(0.0, 0.0, 0.0, 0.0);
    let full_planet = Planet { x: fx(100.0), y: fx(0.0), radius: fx(30.0) };
    let half_planet = Planet { x: fx(100.0), y: fx(0.0), radius: fx(15.0) };
    apply_gravity(&mut full, &full_planet, fx(1.0));
    apply_gravity(&mut half, &half_planet, fx(1.0));
    let ratio = vel(half.speed_x) / vel(full.speed_x);
    assert!((ratio - 0.125).abs() < 0.001);
}

#[test]
fn thrust_acceleration_at_full_fuel() {
    let mut rocket = make_rocket(0.0, 0.0, 0.0, 0.0);
    rocket.fuel = fx(20.0);
    apply_thrust(&mut rocket, fx(1.0));
    // mass = 0.5 + 0.5 * (20/20) = 1.0, accel = 10/1 = 10
    assert!((vel(rocket.speed_y) - -10.0).abs() < EPSILON);
}

#[test]
fn thrust_acceleration_at_empty_fuel() {
    let mut rocket = make_rocket(0.0, 0.0, 0.0, 0.0);
    rocket.fuel = fx(0.0);
    apply_thrust(&mut rocket, fx(1.0));
    // mass = 0.5 + 0.5 * (0/20) = 0.5, accel = 10/0.5 = 20
    assert!((vel(rocket.speed_y) - -20.0).abs() < EPSILON);
}

#[test]
fn thrust_acceleration_at_half_fuel() {
    let mut rocket = make_rocket(0.0, 0.0, 0.0, 0.0);
    rocket.fuel = fx(10.0);
    apply_thrust(&mut rocket, fx(1.0));
    // mass = 0.5 + 0.5 * (10/20) = 0.75, accel = 10/0.75 = 13.333...
    let expected = 10.0 / 0.75;
    assert!((vel(rocket.speed_y) - -expected).abs() < 0.001);
}

#[test]
fn thrust_stronger_with_less_fuel() {
    let mut full = make_rocket(0.0, 0.0, 0.0, 0.0);
    full.fuel = fx(20.0);
    let mut low = make_rocket(0.0, 0.0, 0.0, 0.0);
    low.fuel = fx(5.0);
    apply_thrust(&mut full, fx(1.0));
    apply_thrust(&mut low, fx(1.0));
    assert!(vel(low.speed_y).abs() > vel(full.speed_y).abs());
}

#[test]
fn engine_off_when_fuel_runs_out() {
    let mut rocket = make_rocket(0.0, 0.0, 0.0, 0.0);
    rocket.engine_on = true;
    rocket.fuel = fx(0.5);
    apply_engine(&mut rocket, fx(1.0));
    assert_eq!(val(rocket.fuel), 0.0);
    assert!(!rocket.engine_on);
}

#[test]
fn no_thrust_when_no_fuel() {
    let mut with_fuel = make_rocket(0.0, 0.0, 0.0, 0.0);
    with_fuel.engine_on = true;
    with_fuel.fuel = fx(20.0);
    let mut without_fuel = make_rocket(0.0, 0.0, 0.0, 0.0);
    without_fuel.engine_on = true;
    without_fuel.fuel = fx(0.0);
    apply_engine(&mut with_fuel, fx(1.0));
    apply_engine(&mut without_fuel, fx(1.0));
    // with fuel the engine pushes; without fuel it does not
    assert!(vel(with_fuel.speed_y) < vel(without_fuel.speed_y));
}

#[test]
fn collision_inside_planet() {
    let rocket = make_rocket(100.0, 100.0, 0.0, 0.0);
    let planet = make_planet(100.0, 100.0);
    assert!(check_collision(&rocket, &planet));
}

#[test]
fn collision_near_center() {
    let rocket = make_rocket(105.0, 100.0, 0.0, 0.0);
    let planet = make_planet(100.0, 100.0);
    assert!(check_collision(&rocket, &planet));
}

#[test]
fn no_collision_outside_planet() {
    let rocket = make_rocket(200.0, 200.0, 0.0, 0.0);
    let planet = make_planet(100.0, 100.0);
    assert!(!check_collision(&rocket, &planet));
}

#[test]
fn no_collision_on_boundary() {
    let rocket = make_rocket(130.0, 100.0, 0.0, 0.0);
    let planet = make_planet(100.0, 100.0);
    assert!(!check_collision(&rocket, &planet));
}

#[test]
fn collision_just_inside() {
    let rocket = make_rocket(129.0, 100.0, 0.0, 0.0);
    let planet = make_planet(100.0, 100.0);
    assert!(check_collision(&rocket, &planet));
}

#[test]
fn engine_accel_full_fuel() {
    let rocket = make_rocket(0.0, 0.0, 0.0, 0.0);
    // mass = 0.5 + 0.5 * (20/20) = 1.0, accel = 10/1 = 10
    assert!((vel(engine_accel(&rocket)) - 10.0).abs() < EPSILON);
}

#[test]
fn engine_accel_empty_fuel() {
    let mut rocket = make_rocket(0.0, 0.0, 0.0, 0.0);
    rocket.fuel = fx(0.0);
    // mass = 0.5 + 0.5 * 0 = 0.5, accel = 10/0.5 = 20
    assert!((vel(engine_accel(&rocket)) - 20.0).abs() < EPSILON);
}

#[test]
fn engine_accel_half_fuel() {
    let mut rocket = make_rocket(0.0, 0.0, 0.0, 0.0);
    rocket.fuel = fx(10.0);
    // mass = 0.5 + 0.5 * (10/20) = 0.75, accel = 10/0.75
    let expected = 10.0 / 0.75;
    assert!((vel(engine_accel(&rocket)) - expected).abs() < 0.001);
}

#[test]
fn win_circle_inside_slow_engine_off() {
    let rocket = make_rocket(100.0, 100.0, 1.0, 0.0);
    let condition = WinCondition::Circle {
        x: fx(100.0),
        y: fx(100.0),
        radius: fx(50.0),
        max_speed: fv(2.0),
    };
    assert!(check_win(&rocket, &condition));
}

#[test]
fn no_win_circle_too_fast() {
    let rocket = make_rocket(100.0, 100.0, 3.0, 0.0);
    let condition = WinCondition::Circle {
        x: fx(100.0),
        y: fx(100.0),
        radius: fx(50.0),
        max_speed: fv(2.0),
    };
    assert!(!check_win(&rocket, &condition));
}

#[test]
fn no_win_circle_engine_on() {
    let mut rocket = make_rocket(100.0, 100.0, 1.0, 0.0);
    rocket.engine_on = true;
    let condition = WinCondition::Circle {
        x: fx(100.0),
        y: fx(100.0),
        radius: fx(50.0),
        max_speed: fv(2.0),
    };
    assert!(!check_win(&rocket, &condition));
}

#[test]
fn no_win_circle_outside() {
    let rocket = make_rocket(200.0, 200.0, 0.0, 0.0);
    let condition = WinCondition::Circle {
        x: fx(100.0),
        y: fx(100.0),
        radius: fx(50.0),
        max_speed: fv(2.0),
    };
    assert!(!check_win(&rocket, &condition));
}

#[test]
fn win_circle_any_speed_inside_engine_off() {
    let rocket = make_rocket(100.0, 100.0, 999.0, 999.0);
    let condition = WinCondition::CircleAnySpeed { x: fx(100.0), y: fx(100.0), radius: fx(50.0) };
    assert!(check_win(&rocket, &condition));
}

#[test]
fn no_win_circle_any_speed_engine_on() {
    let mut rocket = make_rocket(100.0, 100.0, 0.0, 0.0);
    rocket.engine_on = true;
    let condition = WinCondition::CircleAnySpeed { x: fx(100.0), y: fx(100.0), radius: fx(50.0) };
    assert!(!check_win(&rocket, &condition));
}

#[test]
fn no_win_circle_any_speed_outside() {
    let rocket = make_rocket(200.0, 200.0, 0.0, 0.0);
    let condition = WinCondition::CircleAnySpeed { x: fx(100.0), y: fx(100.0), radius: fx(50.0) };
    assert!(!check_win(&rocket, &condition));
}

fn make_static_planet_def(x: f64, y: f64, radius: f64) -> PlanetDef {
    PlanetDef { center_x: fx(x), center_y: fx(y), radius: fx(radius), orbit: None }
}

#[test]
fn project_path_no_planets_straight_line() {
    let rocket = make_rocket(0.0, 0.0, 100.0, 0.0);
    let path = project_path(&rocket, &[], fx(1.0), 10, fx(0.0));
    assert_eq!(path.len(), 10);
    // the craft moves right in a straight line
    for i in 1..path.len() {
        assert!(val(path[i].0) > val(path[i - 1].0));
        assert!(val(path[i].1).abs() < EPSILON);
    }
}

#[test]
fn project_path_returns_correct_count() {
    let rocket = make_rocket(0.0, 0.0, 10.0, 0.0);
    let path = project_path(&rocket, &[], fx(2.0), 50, fx(0.0));
    assert_eq!(path.len(), 50);
}

#[test]
fn project_path_static_planet_curves_trajectory() {
    let rocket = make_rocket(0.0, 0.0, 100.0, 0.0);
    let planets = vec![make_static_planet_def(0.0, 200.0, 10.0)];
    let path = project_path(&rocket, &planets, fx(2.0), 100, fx(0.0));
    // the body is below, so the craft curves downward (positive y)
    let last = path.last().unwrap();
    assert!(val(last.1) > 0.0);
}

#[test]
fn project_path_orbiting_planet_differs_from_static() {
    let rocket = make_rocket(0.0, 0.0, 100.0, 0.0);
    let static_planets = vec![make_static_planet_def(0.0, 200.0, 10.0)];
    let orbiting_planets = vec![PlanetDef {
        center_x: fx(0.0),
        center_y: fx(200.0),
        radius: fx(10.0),
        orbit: Some(Orbit { radius: fx(100.0), speed: fx(2.0), initial_angle: fx(0.0) }),
    }];
    let static_path = project_path(&rocket, &static_planets, fx(2.0), 100, fx(0.0));
    let orbiting_path = project_path(&rocket, &orbiting_planets, fx(2.0), 100, fx(0.0));
    // the paths diverge, since the orbiting body moves
    let last_static = static_path.last().unwrap();
    let last_orbit = orbiting_path.last().unwrap();
    let dx = val(last_static.0) - val(last_orbit.0);
    let dy = val(last_static.1) - val(last_orbit.1);
    assert!(dx * dx + dy * dy > 1.0);
}

#[test]
fn project_path_disables_engine() {
    let mut rocket = make_rocket(0.0, 0.0, 100.0, 0.0);
    rocket.engine_on = true;
    let path = project_path(&rocket, &[], fx(1.0), 10, fx(0.0));
    // with the engine off the craft moves in a straight line
    for i in 1..path.len() {
        assert!(val(path[i].1).abs() < EPSILON);
    }
}
