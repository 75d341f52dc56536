use vetomint::tally::Tally;

#[test]
fn tally_counts_per_proposal() {
    let mut t = Tally::new();
    assert_eq!(t.amount(3), 0);
    t.add(3, 5);
    t.add(1, 2);
    t.add(3, 1);
    assert_eq!(t.amount(3), 6);
    assert_eq!(t.amount(1), 2);
    assert_eq!(t.amount(2), 0);
    assert_eq!(t.sum(), 8);
}

#[test]
fn first_and_last_over_two_thirds_follow_proposal_order() {
    let mut t = Tally::new();
    t.add(9, 7);
    t.add(4, 7);
    t.add(6, 1);
    // 7 * 3 = 21 > 10 * 2; 1 * 3 = 3 is not.
    assert_eq!(t.first_over(10), Some(4));
    assert_eq!(t.last_over(10), Some(9));
    // 7 * 3 = 21 is not more than 11 * 2 = 22.
    assert_eq!(t.first_over(11), None);
    assert_eq!(t.last_over(11), None);
}
