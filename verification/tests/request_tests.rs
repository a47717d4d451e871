use skjalftalisa::request::{AreaPoint, SkjalftalisaRequest, UtcTimestamp};

fn ring() -> Vec<AreaPoint> {
    vec![
        AreaPoint { x: 67.14815809664168f64.to_bits(), y: (-18.589553916826844f64).to_bits() },
        AreaPoint { x: 66.08886951976677f64.to_bits(), y: (-20.204544151201848f64).to_bits() },
        AreaPoint { x: 65.68945088379868f64.to_bits(), y: (-18.084182823076848f64).to_bits() },
        AreaPoint { x: 66.23539315614204f64.to_bits(), y: (-16.040725791826848f64).to_bits() },
    ]
}

#[test]
fn test_new_request_has_documented_defaults() {
    let area = ring();
    let request = SkjalftalisaRequest::new(area.clone());

    assert_eq!(request.area, area);
    assert_eq!(request.depth_min, 0);
    assert_eq!(request.depth_max, 25);
    assert_eq!(request.size_min, 0);
    assert_eq!(request.size_max, 11);
    assert_eq!(request.start_time, "1970-01-01 00:00:00");
    assert_eq!(request.end_time, "2030-12-31 23:59:59");
    assert_eq!(request.event_type, vec!["qu".to_string()]);
    assert_eq!(
        request.fields,
        vec![
            "time".to_string(),
            "lat".to_string(),
            "long".to_string(),
            "depth".to_string(),
            "magnitude".to_string(),
            "magnitude_type".to_string(),
            "originating_system".to_string(),
        ]
    );
    assert_eq!(request.magnitude_preference, vec!["Mlw".to_string(), "Autmag".to_string()]);
    assert_eq!(request.originating_system, vec!["SIL picks".to_string()]);
}

#[test]
fn test_with_size_and_depth_replace_only_their_bounds() {
    let request = SkjalftalisaRequest::new(ring()).with_size(2, 7).with_depth(5, 40);

    assert_eq!(request.size_min, 2);
    assert_eq!(request.size_max, 7);
    assert_eq!(request.depth_min, 5);
    assert_eq!(request.depth_max, 40);
    assert_eq!(request.start_time, "1970-01-01 00:00:00");
    assert_eq!(request.end_time, "2030-12-31 23:59:59");
    assert_eq!(request.event_type, vec!["qu".to_string()]);
    assert_eq!(request.area, ring());
}

#[test]
fn test_with_size_performs_no_bound_validation() {
    let request = SkjalftalisaRequest::new(ring()).with_size(9, 3);

    assert_eq!(request.size_min, 9);
    assert_eq!(request.size_max, 3);
}

#[test]
fn test_with_time_formats_utc_seconds() {
    let request = SkjalftalisaRequest::new(ring()).with_time(
        UtcTimestamp { secs: 1684432911, nanos: 0 },
        UtcTimestamp { secs: 1684433664, nanos: 0 },
    );

    assert_eq!(request.start_time, "2023-05-18 18:01:51");
    assert_eq!(request.end_time, "2023-05-18 18:14:24");
}

#[test]
fn test_with_time_truncates_subsecond_precision() {
    let whole = SkjalftalisaRequest::new(ring()).with_time(
        UtcTimestamp { secs: 1684432911, nanos: 0 },
        UtcTimestamp { secs: 1684433664, nanos: 0 },
    );
    let fractional = SkjalftalisaRequest::new(ring()).with_time(
        UtcTimestamp { secs: 1684432911, nanos: 999_999_999 },
        UtcTimestamp { secs: 1684433664, nanos: 123_456_789 },
    );

    assert_eq!(whole.start_time, fractional.start_time);
    assert_eq!(whole.end_time, fractional.end_time);
    assert!(!fractional.start_time.contains('.'));
}

#[test]
fn test_with_time_omits_timezone_designators() {
    let request = SkjalftalisaRequest::new(ring()).with_time(
        UtcTimestamp { secs: 0, nanos: 0 },
        UtcTimestamp { secs: 253402300799, nanos: 0 },
    );

    assert_eq!(request.start_time, "1970-01-01 00:00:00");
    assert_eq!(request.end_time, "9999-12-31 23:59:59");
    for s in [&request.start_time, &request.end_time] {
        assert!(!s.contains('Z'));
        assert!(!s.contains('z'));
        assert!(!s.contains('+'));
        assert!(!s.contains('T'));
    }
}

#[test]
fn test_builder_chain_keeps_ring_order() {
    let area = ring();
    let request = SkjalftalisaRequest::new(area.clone())
        .with_depth(0, 30)
        .with_size(1, 5)
        .with_time(
            UtcTimestamp { secs: 1684432911, nanos: 0 },
            UtcTimestamp { secs: 1684434229, nanos: 0 },
        );

    assert_eq!(request.area, area);
    assert_eq!(request.fields.len(), 7);
}
