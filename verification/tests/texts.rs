use grammarbot::db_interactions::partition_name;
use grammarbot::text::{join, u64_to_string};
use grammarbot::types::{Record, Thing};

#[test]
fn decimal_of_small_and_large_numbers() {
    assert_eq!(u64_to_string(0), "0");
    assert_eq!(u64_to_string(7), "7");
    assert_eq!(u64_to_string(10), "10");
    assert_eq!(u64_to_string(109), "109");
    assert_eq!(u64_to_string(1234567890), "1234567890");
    assert_eq!(u64_to_string(u64::MAX), "18446744073709551615");
}

#[test]
fn decimal_agrees_with_the_standard_rendering() {
    for n in [1u64, 9, 11, 99, 100, 101, 999, 1000, 4294967295, 4294967296, 9007199254740993] {
        assert_eq!(u64_to_string(n), n.to_string());
    }
}

#[test]
fn join_puts_the_separator_between() {
    let parts = vec!["a".to_string(), "bc".to_string(), "".to_string(), "d".to_string()];
    assert_eq!(join(&parts, ", "), "a, bc, , d");
    assert_eq!(join(&vec!["only".to_string()], ", "), "only");
    assert_eq!(join(&Vec::new(), ", "), "");
    assert_eq!(join(&parts, ""), "abcd");
}

#[test]
fn partition_names() {
    assert_eq!(partition_name(&Some(1234)), "1234");
    assert_eq!(partition_name(&Some(0)), "0");
    assert_eq!(partition_name(&None), "global");
}

#[test]
fn record_keeps_its_identity() {
    let record = Record::new(Thing { tb: "tags".to_string(), id: "rules".to_string() });
    assert_eq!(record.identity(), &Thing { tb: "tags".to_string(), id: "rules".to_string() });
}
