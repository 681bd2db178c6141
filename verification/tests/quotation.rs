use yatis::quotation::{convert_price, from_quotation, q, to_quotation, MoneyValue, Quotation,
    QuotationExt};

#[test]
fn test_round() {
    let x = q(11, 0);
    let i = q(3, 0);
    assert_eq!(x.floor(i), q(9, 0));
    assert_eq!(x.round(i), q(12, 0));

    let i = q(3, 1);
    assert_eq!(x.floor(i), q(108, 1));
    assert_eq!(x.round(i), q(111, 1));

    let i = q(5, 1);
    assert_eq!(x.floor(i), x);
    assert_eq!(x.round(i), x);
}

#[test]
fn q_builds_units_and_nano() {
    assert_eq!(q(11, 0), Quotation { units: 11, nano: 0 });
    assert_eq!(q(108, 1), Quotation { units: 10, nano: 800_000_000 });
    assert_eq!(q(-25, 1), Quotation { units: -2, nano: -500_000_000 });
}

#[test]
fn wide_round_trip_reproduces_value() {
    let samples = vec![
        Quotation { units: 0, nano: 0 },
        Quotation { units: 7, nano: 250_000_000 },
        Quotation { units: -3, nano: -999_999_999 },
        Quotation { units: i64::MAX, nano: 999_999_999 },
        Quotation { units: i64::MIN, nano: -999_999_999 },
    ];
    for s in samples {
        assert_eq!(to_quotation(from_quotation(s)), s);
    }
}

#[test]
fn add_and_sub_are_exact() {
    let a = q(15, 1); // 1.5
    let b = q(27, 1); // 2.7
    assert_eq!(a.add(b), q(42, 1));
    assert_eq!(b.sub(a), q(12, 1));
    // crossing zero normalizes the signs of both parts
    assert_eq!(a.sub(b), Quotation { units: -1, nano: -200_000_000 });
}

#[test]
fn mul_matches_fixed_point_product() {
    let a = q(25, 1); // 2.5
    let b = q(4, 0);
    assert_eq!(a.mul(b), q(10, 0));
    assert_eq!(a.mul_int(3), q(75, 1));
    let neg = q(-25, 1);
    assert_eq!(neg.mul_int(2), q(-5, 0));
}

#[test]
fn div_truncates_toward_zero() {
    let a = q(7, 0);
    let b = q(2, 0);
    assert_eq!(a.div(b), Some(q(35, 1)));
    assert_eq!(a.div_int(2), Some(q(35, 1)));
    // -7 / 2 = -3.5 exactly; -1 / 3 truncates toward zero
    let c = q(-1, 0);
    let d = q(3, 0);
    assert_eq!(c.div(d), Some(Quotation { units: 0, nano: -333_333_333 }));
}

#[test]
fn div_by_zero_is_an_error() {
    let a = q(7, 0);
    assert_eq!(a.div(q(0, 0)), None);
    assert_eq!(a.div_int(0), None);
    let mut b = a;
    assert!(!b.div_assign(0));
    assert_eq!(b, a);
}

#[test]
fn assign_ops_match_plain_ops() {
    let mut a = q(15, 1);
    a.add_assign(q(5, 1));
    assert_eq!(a, q(2, 0));
    a.sub_assign(q(5, 1));
    assert_eq!(a, q(15, 1));
    a.mul_assign(4);
    assert_eq!(a, q(6, 0));
    assert!(a.div_assign(3));
    assert_eq!(a, q(2, 0));
}

#[test]
fn sum_adds_all_entries() {
    let items = vec![q(15, 1), q(25, 1), q(-1, 0)];
    assert_eq!(Quotation::sum(&items), q(3, 0));
    let empty: Vec<Quotation> = Vec::new();
    assert_eq!(Quotation::sum(&empty), q(0, 0));
}

#[test]
fn money_value_converts_to_quotation() {
    let m = MoneyValue { units: 12, nano: 500_000_000, currency: "rub".to_string() };
    assert_eq!(Quotation::from(m), q(125, 1));
}

#[test]
fn convert_price_keeps_whole_cents() {
    assert_eq!(convert_price(q(125, 1)), 1250);
    assert_eq!(convert_price(Quotation { units: 3, nano: 19_999_999 }), 301);
    assert_eq!(convert_price(Quotation { units: -3, nano: -19_999_999 }), -301);
}

#[test]
fn floor_lands_on_a_multiple_even_for_coarse_increments() {
    // just above a multiple of a 2.0 increment: the greatest multiple wins
    let x = Quotation { units: 2, nano: 1 };
    let i = q(2, 0);
    assert_eq!(x.floor(i), q(2, 0));
    assert_eq!(x.round(i), q(2, 0));
}

#[test]
fn q_accepts_large_exponents() {
    assert_eq!(q(0, 20), q(0, 0));
    assert_eq!(q(35, 36), q(0, 0));
}

#[test]
fn floor_and_round_with_fractional_increment() {
    // 0.1 steps over 0.25: floor 0.2, round 0.3
    let x = q(25, 2);
    let i = q(1, 1);
    assert_eq!(x.floor(i), q(2, 1));
    assert_eq!(x.round(i), q(3, 1));
}
