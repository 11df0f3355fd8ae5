use mobula::distance::Distance;

fn rank_of_number(x: f64) -> i64 {
    Distance::from_bits(x.to_bits()).expect("a number").rank
}

#[test]
fn zero_has_rank_zero_under_either_sign() {
    assert_eq!(rank_of_number(0.0), 0);
    assert_eq!(rank_of_number(-0.0), 0);
}

#[test]
fn rank_is_the_magnitude_with_the_sign() {
    assert_eq!(rank_of_number(1.0), 0x3ff0_0000_0000_0000);
    assert_eq!(rank_of_number(-1.0), -0x3ff0_0000_0000_0000);
    assert_eq!(rank_of_number(f64::INFINITY), 0x7ff0_0000_0000_0000);
    assert_eq!(rank_of_number(f64::NEG_INFINITY), -0x7ff0_0000_0000_0000);
    assert_eq!(rank_of_number(f64::from_bits(1)), 1);
    assert_eq!(rank_of_number(-f64::from_bits(1)), -1);
}

#[test]
fn what_is_not_a_number_has_no_rank() {
    assert_eq!(Distance::from_bits(f64::NAN.to_bits()), None);
    assert_eq!(Distance::from_bits((-f64::NAN).to_bits()), None);
    assert_eq!(Distance::from_bits(0x7ff0_0000_0000_0001), None);
    assert_eq!(Distance::from_bits(0xffff_ffff_ffff_ffff), None);
    assert_eq!(Distance::from_bits(0x7ff0_0000_0000_0000), Some(Distance { rank: 0x7ff0_0000_0000_0000 }));
}

#[test]
fn ranks_order_as_the_numbers_do() {
    let numbers = [
        f64::NEG_INFINITY,
        f64::MIN,
        -1.0e300,
        -2.5,
        -1.0,
        -0.001,
        -f64::MIN_POSITIVE,
        -f64::from_bits(1),
        0.0,
        f64::from_bits(1),
        f64::MIN_POSITIVE,
        0.001,
        0.5,
        1.0,
        1.0000000000000002,
        4.0,
        1.0e300,
        f64::MAX,
        f64::INFINITY,
    ];
    for i in 0..numbers.len() {
        for j in 0..numbers.len() {
            let a = rank_of_number(numbers[i]);
            let b = rank_of_number(numbers[j]);
            assert_eq!(a < b, numbers[i] < numbers[j]);
            assert_eq!(a == b, numbers[i] == numbers[j]);
        }
    }
}

#[test]
fn to_bits_gives_the_number_back() {
    for x in [0.0, 0.001, 1.0, 2.5, -2.5, 1.0e-310, -1.0e300, f64::MAX, f64::INFINITY, f64::NEG_INFINITY] {
        let d = Distance::from_bits(x.to_bits()).expect("a number");
        let bits = d.to_bits().expect("the rank of a number");
        assert_eq!(f64::from_bits(bits), x);
    }
    let zero = Distance::from_bits((-0.0f64).to_bits()).expect("a number");
    assert_eq!(zero.to_bits(), Some(0));
    assert_eq!(Distance { rank: -1 }.to_bits(), Some(0x8000_0000_0000_0001));
}

#[test]
fn a_rank_beyond_infinity_has_no_bits() {
    assert_eq!(Distance { rank: 0x7ff0_0000_0000_0001 }.to_bits(), None);
    assert_eq!(Distance { rank: -0x7ff0_0000_0000_0001 }.to_bits(), None);
    assert_eq!(Distance { rank: i64::MIN }.to_bits(), None);
    assert_eq!(Distance { rank: i64::MAX }.to_bits(), None);
    assert_eq!(Distance { rank: 0x7ff0_0000_0000_0000 }.to_bits(), Some(0x7ff0_0000_0000_0000));
    assert_eq!(Distance { rank: -0x7ff0_0000_0000_0000 }.to_bits(), Some(0xfff0_0000_0000_0000));
}

#[test]
fn within_is_strict_at_both_ends() {
    let d = |rank: i64| Distance { rank };
    assert!(d(5).is_within(d(4), d(6)));
    assert!(!d(4).is_within(d(4), d(6)));
    assert!(!d(6).is_within(d(4), d(6)));
    assert!(!d(5).is_within(d(6), d(4)));
    assert!(!d(5).is_within(d(5), d(5)));
}
