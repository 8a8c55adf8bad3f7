use tortuga::text::decimal_string;

#[test]
fn decimal_matches_to_string() {
    for n in [0u64, 7, 10, 99, 100, 200, 404, 65535, 1_000_000, u64::MAX] {
        assert_eq!(decimal_string(n), n.to_string());
    }
}
