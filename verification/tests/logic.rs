#[test]
fn implies_truth_table() {
    assert_eq!(un_algebra::logic::implies(false, false), true);
    assert_eq!(un_algebra::logic::implies(false, true), true);
    assert_eq!(un_algebra::logic::implies(true, false), false);
    assert_eq!(un_algebra::logic::implies(true, true), true);
}
