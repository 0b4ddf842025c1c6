use osm2streets::ids::{InvariantViolation, NodeID, OriginalRoad, WayID};

#[test]
fn new_builds_the_triple_exactly() {
    let r = OriginalRoad::new(42, (1, 2));
    assert_eq!(r.osm_way_id, WayID(42));
    assert_eq!(r.i1, NodeID(1));
    assert_eq!(r.i2, NodeID(2));
}

#[test]
fn endpoint_order_is_significant() {
    let a = OriginalRoad::new(7, (1, 2));
    let b = OriginalRoad::new(7, (2, 1));
    assert_ne!(a, b);
}

#[test]
fn as_string_code_renders_the_triple() {
    let r = OriginalRoad::new(42, (1, 2));
    assert_eq!(r.as_string_code(), "OriginalRoad::new(42, (1, 2))");
}

#[test]
fn as_string_code_renders_negative_and_zero_ids() {
    let r = OriginalRoad::new(-7, (-123, 0));
    assert_eq!(r.as_string_code(), "OriginalRoad::new(-7, (-123, 0))");
}

#[test]
fn as_string_code_renders_extreme_ids() {
    let r = OriginalRoad::new(i64::MIN, (i64::MAX, 10));
    assert_eq!(
        r.as_string_code(),
        "OriginalRoad::new(-9223372036854775808, (9223372036854775807, 10))"
    );
}

#[test]
fn has_common_endpoint_checks_all_four_pairings() {
    let k = OriginalRoad::new(1, (10, 20));
    assert!(k.has_common_endpoint(OriginalRoad::new(2, (10, 99))));
    assert!(k.has_common_endpoint(OriginalRoad::new(2, (99, 10))));
    assert!(k.has_common_endpoint(OriginalRoad::new(2, (20, 99))));
    assert!(k.has_common_endpoint(OriginalRoad::new(2, (99, 20))));
    assert!(!k.has_common_endpoint(OriginalRoad::new(2, (98, 99))));
}

#[test]
fn has_common_endpoint_is_symmetric_on_samples() {
    let keys = [
        OriginalRoad::new(1, (10, 20)),
        OriginalRoad::new(2, (20, 30)),
        OriginalRoad::new(3, (40, 50)),
        OriginalRoad::new(4, (10, 20)),
    ];
    for k1 in keys {
        for k2 in keys {
            assert_eq!(k1.has_common_endpoint(k2), k2.has_common_endpoint(k1));
        }
    }
}

#[test]
fn other_side_flips_between_the_two_endpoints() {
    let k = OriginalRoad::new(5, (1, 2));
    assert_eq!(k.other_side(NodeID(1)), Ok(NodeID(2)));
    assert_eq!(k.other_side(NodeID(2)), Ok(NodeID(1)));
}

#[test]
fn other_side_rejects_a_node_on_neither_side() {
    let k = OriginalRoad::new(5, (1, 2));
    assert_eq!(
        k.other_side(NodeID(9)),
        Err(InvariantViolation::NotAnEndpoint(k, NodeID(9)))
    );
}

#[test]
fn common_endpt_returns_a_node_shared_by_both() {
    let k1 = OriginalRoad::new(1, (10, 20));
    let k2 = OriginalRoad::new(2, (20, 30));
    let n = k1.common_endpt(k2).unwrap();
    assert!(n == k1.i1 || n == k1.i2);
    assert!(n == k2.i1 || n == k2.i2);
}

#[test]
fn common_endpt_rejects_disjoint_keys() {
    let k1 = OriginalRoad::new(1, (10, 20));
    let k2 = OriginalRoad::new(2, (30, 40));
    assert!(!k1.has_common_endpoint(k2));
    assert_eq!(
        k1.common_endpt(k2),
        Err(InvariantViolation::NoCommonEndpoint(k1, k2))
    );
}

#[test]
fn common_endpt_prefers_the_first_endpoint_for_parallel_duplicates() {
    let k1 = OriginalRoad::new(1, (10, 20));
    let k2 = OriginalRoad::new(2, (10, 20));
    assert_eq!(k1.common_endpt(k2), Ok(NodeID(10)));
}

#[test]
fn straight_three_node_street_yields_two_segments_meeting_in_the_middle() {
    // One way W through nodes N1 - N2 - N3 is cut into two segments whose
    // shared endpoint is the middle node.
    let w = 100;
    let seg1 = OriginalRoad::new(w, (1, 2));
    let seg2 = OriginalRoad::new(w, (2, 3));
    assert_eq!(seg1.common_endpt(seg2), Ok(NodeID(2)));
    assert_eq!(seg2.common_endpt(seg1), Ok(NodeID(2)));
    assert_eq!(seg1.as_string_code(), "OriginalRoad::new(100, (1, 2))");
    assert_eq!(seg2.as_string_code(), "OriginalRoad::new(100, (2, 3))");
}

#[test]
fn violations_carry_a_diagnostic_text() {
    let k1 = OriginalRoad::new(1, (10, 20));
    let k2 = OriginalRoad::new(2, (30, 40));
    let e = k1.common_endpt(k2).unwrap_err();
    assert_eq!(
        e.describe(),
        "OriginalRoad::new(1, (10, 20)) and OriginalRoad::new(2, (30, 40)) have no common endpoint"
    );
    let e = k1.other_side(NodeID(-5)).unwrap_err();
    assert_eq!(
        e.describe(),
        "OriginalRoad::new(1, (10, 20)) does not have -5 on either side"
    );
}
