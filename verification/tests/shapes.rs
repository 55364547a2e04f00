use common_concepts::shapes::{Circle, Cube, Prism, Shape, Sphere, FOUR_THIRDS_TRUNC, PI_TRUNC};
use common_concepts::utils::Ops;

#[test]
fn test_building_circle_radius() {
    let cir = Circle::new_with_radius(10);

    assert_eq!(cir.diameter(), 20);
    assert_eq!(cir.radius(), 10);

    let area = cir.area();
    let vol = cir.volume();

    assert_eq!(vol, 0);
    assert_eq!(area, (PI_TRUNC as i32) * Ops::square(cir.radius()))
}

#[test]
fn test_sphere_with_rad() {
    let s = Sphere::new_with_radius(20_u64);

    assert_eq!(s.diameter(), 40_u64);
    assert_eq!(s.radius(), 20_u64);

    let area = s.area();
    let vol = s.volume();
    let circumfrence = s.circumference();

    assert_eq!(area, 4 * PI_TRUNC as u64 * Ops::square(s.radius()));
    assert_eq!(vol, FOUR_THIRDS_TRUNC as u64 * PI_TRUNC as u64 * Ops::cube(s.radius()));
    assert_eq!(circumfrence, 2 * PI_TRUNC as u64 * s.radius())
}

#[test]
fn test_sphere_with_diameter() {
    let s = Sphere::new_with_diameter(20_u64);

    assert_eq!(s.diameter(), 20_u64);
    assert_eq!(s.radius(), 10_u64);

    let area = s.area();
    let vol = s.volume();
    let circumfrence = s.circumference();

    assert_eq!(area, 4 * PI_TRUNC as u64 * Ops::square(s.radius()));
    assert_eq!(vol, FOUR_THIRDS_TRUNC as u64 * PI_TRUNC as u64 * Ops::cube(s.radius()));
    assert_eq!(circumfrence, 2 * PI_TRUNC as u64 * s.radius())
}

#[test]
fn test_prism() {
    let prism = Prism::new(5, 10, 15);

    assert!(
        prism.length() == 5 && prism.width() == 10 && prism.height() == 15,
        "length: {}, width: {}, height: {}",
        prism.length(),
        prism.width(),
        prism.height()
    );

    assert_eq!(prism.area(), 550);
    assert_eq!(prism.volume(), 750);
}

#[test]
fn test_cube() {
    let cube = Cube::new(3);

    assert!(cube.sides() == 3);
    assert_eq!(cube.area(), 54);
    assert_eq!(cube.volume(), 27);
}

#[test]
fn sphere_radius_ten_unsigned_truncated_pi() {
    let s = Sphere::new_with_radius(10_u64);

    assert_eq!(s.area(), 4 * 3 * 100);
    assert_eq!(s.volume(), 3 * 1000);
    assert_eq!(s.circumference(), 60);
}

#[test]
fn circle_radius_round_trip() {
    let first = Circle::new_with_radius(7_u64);
    let second = Circle::new_with_diameter(first.diameter());

    assert_eq!(first.diameter(), 14);
    assert_eq!(second.radius(), 7);
}

#[test]
fn circle_odd_diameter_is_lossy() {
    let c = Circle::new_with_diameter(7_u64);

    assert_eq!(c.radius(), 3);

    let rebuilt = Circle::new_with_radius(c.radius());

    assert_eq!(rebuilt.diameter(), 6);
}

#[test]
fn halving_truncates_toward_zero() {
    assert_eq!(Ops::half(-3_i32), -1);
    assert_eq!(Ops::half(-4_i32), -2);
    assert_eq!(Ops::half(7_u32), 3);

    let c = Circle::new_with_diameter(-7_i64);
    assert_eq!(c.radius(), -3);
}

#[test]
fn ops_exact_values() {
    assert_eq!(Ops::square(12_u64), 144);
    assert_eq!(Ops::cube(5_i64), 125);
    assert_eq!(Ops::cube(-5_i64), -125);
    assert_eq!(Ops::double(21_usize), 42);
}

#[test]
fn circle_volume_is_domain_zero() {
    assert_eq!(Circle::new_with_radius(0_u64).volume(), 0);
    assert_eq!(Circle::new_with_radius(-5_i32).volume(), 0);
    assert_eq!(Circle::new_with_diameter(9_usize).volume(), 0);
}

#[test]
fn negative_edges() {
    let c = Circle::new_with_radius(-5_i32);
    assert_eq!(c.diameter(), -10);
    assert_eq!(c.area(), 75);

    let cube = Cube::new(-2_i32);
    assert_eq!(cube.area(), 24);
    assert_eq!(cube.volume(), -8);
}

#[test]
fn zero_sized_shapes() {
    let cube = Cube::new(0_u32);
    assert_eq!(cube.area(), 0);
    assert_eq!(cube.volume(), 0);

    let p = Prism::new(0_u64, 10, 15);
    assert_eq!(p.area(), 2 * 150);
    assert_eq!(p.volume(), 0);
}
