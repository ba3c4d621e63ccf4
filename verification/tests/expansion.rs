use probability_rs::dist::expansion::{Side, SymmetricExpansion};
use probability_rs::DistError;

fn take(sweep: &mut SymmetricExpansion, n: usize) -> Vec<(i64, Side)> {
    let mut out = Vec::new();
    for _ in 0..n {
        let v = sweep.next_visit().unwrap();
        out.push((v.index, v.side));
    }
    out
}

#[test]
fn sweep_alternates_left_and_right() {
    let mut sweep = SymmetricExpansion::new(3).unwrap();
    assert_eq!(
        take(&mut sweep, 9),
        vec![
            (2, Side::Left),
            (4, Side::Right),
            (1, Side::Left),
            (5, Side::Right),
            (0, Side::Left),
            (6, Side::Right),
            (7, Side::Right),
            (8, Side::Right),
            (9, Side::Right),
        ]
    );
}

#[test]
fn sweep_from_zero_only_goes_right() {
    let mut sweep = SymmetricExpansion::new(0).unwrap();
    assert_eq!(
        take(&mut sweep, 4),
        vec![(1, Side::Right), (2, Side::Right), (3, Side::Right), (4, Side::Right)]
    );
}

#[test]
fn sweep_from_one() {
    let mut sweep = SymmetricExpansion::new(1).unwrap();
    assert_eq!(
        take(&mut sweep, 4),
        vec![(0, Side::Left), (2, Side::Right), (3, Side::Right), (4, Side::Right)]
    );
}

#[test]
fn sweep_visits_every_point_once() {
    for anchor in [0i64, 1, 2, 7, 30, 100] {
        let mut sweep = SymmetricExpansion::new(anchor).unwrap();
        let mut seen = vec![false; 400];
        seen[anchor as usize] = true;
        for _ in 0..399 {
            let v = sweep.next_visit().unwrap();
            assert!(v.index >= 0);
            assert!(!seen[v.index as usize]);
            seen[v.index as usize] = true;
            match v.side {
                Side::Left => assert!(v.index < anchor),
                Side::Right => assert!(v.index > anchor),
            }
        }
        assert!(seen.iter().all(|&b| b));
    }
}

#[test]
fn sweep_is_symmetric_while_the_left_lasts() {
    let anchor = 50i64;
    let mut sweep = SymmetricExpansion::new(anchor).unwrap();
    for r in 1..=anchor {
        let l = sweep.next_visit().unwrap();
        let g = sweep.next_visit().unwrap();
        assert_eq!((l.index, l.side), (anchor - r, Side::Left));
        assert_eq!((g.index, g.side), (anchor + r, Side::Right));
    }
    let v = sweep.next_visit().unwrap();
    assert_eq!((v.index, v.side), (2 * anchor + 1, Side::Right));
}

#[test]
fn sweep_ends_where_the_index_no_longer_fits() {
    let mut sweep = SymmetricExpansion::new(i64::MAX).unwrap();
    let v = sweep.next_visit().unwrap();
    assert_eq!((v.index, v.side), (i64::MAX - 1, Side::Left));
    assert!(sweep.next_visit().is_none());
    // It stays at an end.
    assert!(sweep.next_visit().is_none());

    let mut sweep = SymmetricExpansion::new(i64::MAX - 1).unwrap();
    let got = take(&mut sweep, 3);
    assert_eq!(
        got,
        vec![(i64::MAX - 2, Side::Left), (i64::MAX, Side::Right), (i64::MAX - 3, Side::Left)]
    );
    assert!(sweep.next_visit().is_none());
}

#[test]
fn negative_anchor_is_an_invalid_parameter() {
    assert!(matches!(SymmetricExpansion::new(-1), Err(DistError::InvalidParameter)));
    assert!(matches!(SymmetricExpansion::new(i64::MIN), Err(DistError::InvalidParameter)));
    assert!(SymmetricExpansion::new(0).is_ok());
}
