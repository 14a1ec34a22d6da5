use mintcore::errors::ApiError;
use mintcore::quota::check_and_reserve;

#[test]
fn admits_change_within_capacity() {
    assert_eq!(check_and_reserve(0, 40, 100).unwrap(), 40);
    assert_eq!(check_and_reserve(40, 60, 100).unwrap(), 100);
}

#[test]
fn admits_exactly_at_capacity() {
    assert_eq!(check_and_reserve(99, 1, 100).unwrap(), 100);
}

#[test]
fn rejects_change_over_capacity_with_exact_report() {
    let e = check_and_reserve(40, 70, 100).unwrap_err();
    assert!(matches!(e, ApiError::QuotaExceeded { requested: 110, limit: 100 }));
}

#[test]
fn admits_negative_delta() {
    assert_eq!(check_and_reserve(40, -10, 100).unwrap(), 30);
    assert_eq!(check_and_reserve(40, -40, 100).unwrap(), 0);
}

#[test]
fn negative_delta_can_recover_an_over_quota_client() {
    let e = check_and_reserve(150, 0, 100).unwrap_err();
    assert!(matches!(e, ApiError::QuotaExceeded { requested: 150, limit: 100 }));
    assert_eq!(check_and_reserve(150, -60, 100).unwrap(), 90);
}
