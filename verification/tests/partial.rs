use data_over_time::partial::PartialSize;

#[test]
fn identity_is_zero_counted() {
    assert_eq!(PartialSize::identity(), PartialSize::Counted(0));
}

#[test]
fn combine_counted_with_counted_adds() {
    assert_eq!(
        PartialSize::Counted(500).combine(PartialSize::Counted(1500)),
        PartialSize::Counted(2000)
    );
    assert_eq!(
        PartialSize::Counted(0).combine(PartialSize::Counted(0)),
        PartialSize::Counted(0)
    );
    assert_eq!(
        PartialSize::Counted(u64::MAX - 1).combine(PartialSize::Counted(1)),
        PartialSize::Counted(u64::MAX)
    );
}

#[test]
fn combine_excluded_with_excluded_stays_excluded() {
    assert_eq!(PartialSize::Excluded.combine(PartialSize::Excluded), PartialSize::Excluded);
}

#[test]
fn combine_excluded_with_counted_keeps_the_counted() {
    assert_eq!(PartialSize::Excluded.combine(PartialSize::Counted(7)), PartialSize::Counted(7));
    assert_eq!(PartialSize::Counted(7).combine(PartialSize::Excluded), PartialSize::Counted(7));
    assert_eq!(
        PartialSize::Counted(u64::MAX).combine(PartialSize::Excluded),
        PartialSize::Counted(u64::MAX)
    );
}

#[test]
fn combine_with_the_identity() {
    let id = PartialSize::identity();
    assert_eq!(id.combine(PartialSize::Counted(9)), PartialSize::Counted(9));
    assert_eq!(PartialSize::Counted(9).combine(id), PartialSize::Counted(9));
    assert_eq!(id.combine(PartialSize::Excluded), PartialSize::Counted(0));
    assert_eq!(PartialSize::Excluded.combine(id), PartialSize::Counted(0));
    assert_eq!(id.combine(PartialSize::Excluded).total(), PartialSize::Excluded.total());
}

#[test]
fn combine_is_commutative_on_samples() {
    let samples = [
        PartialSize::Excluded,
        PartialSize::Counted(0),
        PartialSize::Counted(1),
        PartialSize::Counted(4096),
        PartialSize::Counted(1 << 40),
    ];
    for a in samples {
        for b in samples {
            assert_eq!(a.combine(b), b.combine(a));
        }
    }
}

#[test]
fn combine_is_associative_on_samples() {
    let samples = [
        PartialSize::Excluded,
        PartialSize::Counted(0),
        PartialSize::Counted(3),
        PartialSize::Counted(500),
        PartialSize::Counted(1 << 50),
    ];
    for a in samples {
        for b in samples {
            for c in samples {
                assert_eq!(a.combine(b).combine(c), a.combine(b.combine(c)));
            }
        }
    }
}

#[test]
fn total_unwraps_counted_and_excluded() {
    assert_eq!(PartialSize::Counted(2000).total(), 2000);
    assert_eq!(PartialSize::Counted(0).total(), 0);
    assert_eq!(PartialSize::Counted(u64::MAX).total(), u64::MAX);
    assert_eq!(PartialSize::Excluded.total(), 0);
}

#[test]
fn total_of_a_merge_is_the_sum_of_totals() {
    let samples = [
        PartialSize::Excluded,
        PartialSize::Counted(0),
        PartialSize::Counted(12),
        PartialSize::Counted(1 << 33),
    ];
    for a in samples {
        for b in samples {
            assert_eq!(a.combine(b).total(), a.total() + b.total());
        }
    }
}

#[test]
fn checked_combine_agrees_with_combine_where_it_fits() {
    let samples = [
        PartialSize::Excluded,
        PartialSize::Counted(0),
        PartialSize::Counted(77),
        PartialSize::Counted(1 << 62),
    ];
    for a in samples {
        for b in samples {
            assert_eq!(a.checked_combine(b), Some(a.combine(b)));
        }
    }
    assert_eq!(
        PartialSize::Counted(u64::MAX - 5).checked_combine(PartialSize::Counted(5)),
        Some(PartialSize::Counted(u64::MAX))
    );
    assert_eq!(
        PartialSize::Counted(u64::MAX).checked_combine(PartialSize::Excluded),
        Some(PartialSize::Counted(u64::MAX))
    );
    assert_eq!(
        PartialSize::Excluded.checked_combine(PartialSize::Counted(u64::MAX)),
        Some(PartialSize::Counted(u64::MAX))
    );
}

#[test]
fn checked_combine_refuses_a_sum_past_64_bits() {
    assert_eq!(PartialSize::Counted(u64::MAX).checked_combine(PartialSize::Counted(1)), None);
    assert_eq!(PartialSize::Counted(1).checked_combine(PartialSize::Counted(u64::MAX)), None);
    assert_eq!(
        PartialSize::Counted(u64::MAX - 5).checked_combine(PartialSize::Counted(6)),
        None
    );
    assert_eq!(
        PartialSize::Counted(1 << 63).checked_combine(PartialSize::Counted(1 << 63)),
        None
    );
}
