use mobula::distance::Distance;
use mobula::hit::{Hit, Roots};
use mobula::scene::nearest_hit;

fn at(x: f64) -> Distance {
    Distance::from_bits(x.to_bits()).expect("a number")
}

fn dot(a: [f64; 3], b: [f64; 3]) -> f64 {
    a[0] * b[0] + a[1] * b[1] + a[2] * b[2]
}

fn sphere(origin: [f64; 3], direction: [f64; 3], centre: [f64; 3], radius: f64) -> Roots {
    let oc = [origin[0] - centre[0], origin[1] - centre[1], origin[2] - centre[2]];
    let a = dot(direction, direction);
    let b = dot(oc, direction);
    let c = dot(oc, oc) - radius * radius;
    let discriminant = b * b - a * c;
    if discriminant < 0.0 {
        return Roots::Missed;
    }
    let t1 = (-b - discriminant.sqrt()) / a;
    let t2 = (-b + discriminant.sqrt()) / a;
    match (Distance::from_bits(t1.to_bits()), Distance::from_bits(t2.to_bits())) {
        (Some(near), Some(far)) => Roots::Pair(near, far),
        _ => Roots::Missed,
    }
}

#[test]
fn empty_scene_is_never_hit() {
    assert_eq!(nearest_hit(&Vec::new(), at(0.001), at(f64::MAX)), None);
}

#[test]
fn overlapping_spheres_give_the_smaller_distance_in_either_order() {
    let origin = [0.0, 0.0, 0.0];
    let direction = [0.0, 0.0, -1.0];
    let front = sphere(origin, direction, [0.0, 0.0, -5.0], 1.0);
    let back = sphere(origin, direction, [0.0, 0.0, -5.5], 1.0);
    let one = nearest_hit(&vec![front, back], at(0.001), at(f64::MAX));
    let other = nearest_hit(&vec![back, front], at(0.001), at(f64::MAX));
    assert_eq!(one, Some(Hit { t: at(4.0), surface: 0 }));
    assert_eq!(other, Some(Hit { t: at(4.0), surface: 1 }));
}

#[test]
fn nearest_of_many_surfaces_is_found_wherever_it_stands() {
    let t_min = at(0.001);
    let t_max = at(f64::MAX);
    let far = Roots::Pair(at(9.0), at(11.0));
    let near = Roots::Pair(at(2.0), at(3.0));
    let behind = Roots::Pair(at(-7.0), at(-5.0));
    let around = Roots::Pair(at(-1.0), at(2.5));
    let missed = Roots::Missed;
    assert_eq!(
        nearest_hit(&vec![far, missed, near, behind, around], t_min, t_max),
        Some(Hit { t: at(2.0), surface: 2 })
    );
    assert_eq!(
        nearest_hit(&vec![near, around, behind, missed, far], t_min, t_max),
        Some(Hit { t: at(2.0), surface: 0 })
    );
    assert_eq!(
        nearest_hit(&vec![behind, around, far], t_min, t_max),
        Some(Hit { t: at(2.5), surface: 1 })
    );
    assert_eq!(nearest_hit(&vec![behind, missed], t_min, t_max), None);
}

#[test]
fn first_of_two_surfaces_at_the_same_distance_is_kept() {
    let a = Roots::Pair(at(2.0), at(3.0));
    let b = Roots::Pair(at(2.0), at(8.0));
    assert_eq!(
        nearest_hit(&vec![a, b], at(0.001), at(f64::MAX)),
        Some(Hit { t: at(2.0), surface: 0 })
    );
    assert_eq!(
        nearest_hit(&vec![b, a], at(0.001), at(f64::MAX)),
        Some(Hit { t: at(2.0), surface: 0 })
    );
}

#[test]
fn far_end_of_the_interval_cuts_surfaces_off() {
    let a = Roots::Pair(at(2.0), at(3.0));
    let b = Roots::Pair(at(5.0), at(8.0));
    assert_eq!(nearest_hit(&vec![a, b], at(0.001), at(2.0)), None);
    assert_eq!(nearest_hit(&vec![a, b], at(2.0), at(5.0)), Some(Hit { t: at(3.0), surface: 0 }));
    assert_eq!(nearest_hit(&vec![a, b], at(3.0), at(9.0)), Some(Hit { t: at(5.0), surface: 1 }));
    assert_eq!(nearest_hit(&vec![a, b], at(5.0), at(9.0)), Some(Hit { t: at(8.0), surface: 1 }));
}
