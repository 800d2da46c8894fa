use typing_library::results::TypingResultTarget;

#[test]
fn merge_sums_the_counts() {
    let a = TypingResultTarget::new(10, 8, 3);
    let b = TypingResultTarget::new(5, 5, 0);
    let merged = a.merge(&b);
    assert_eq!(merged, TypingResultTarget::new(15, 13, 3));
}

#[test]
fn merge_is_associative() {
    let r1 = TypingResultTarget::new(10, 8, 3);
    let r2 = TypingResultTarget::new(5, 5, 0);
    let r3 = TypingResultTarget::new(7, 2, 9);
    let left_grouped = r1.merge(&r2).merge(&r3);
    let right_grouped = r1.merge(&r2.merge(&r3));
    assert_eq!(left_grouped, right_grouped);
    assert_eq!(left_grouped, TypingResultTarget::new(22, 15, 12));
}

#[test]
fn merge_is_commutative() {
    let r1 = TypingResultTarget::new(10, 8, 3);
    let r2 = TypingResultTarget::new(5, 5, 0);
    assert_eq!(r1.merge(&r2), r2.merge(&r1));
}
