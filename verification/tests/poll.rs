use poll_tally::poll::DuplicatePolicy;
use poll_tally::poll::Identity;
use poll_tally::poll::PollContract;
use poll_tally::poll::VoteError;

fn strict() -> PollContract {
    PollContract::new(DuplicatePolicy::Strict)
}

#[test]
fn empty_poll_reads() {
    let p = strict();
    assert_eq!(p.get_votes(), Vec::<u64>::new());
    assert_eq!(p.get_results(), Vec::<u64>::new());
    assert_eq!(p.get_total_votes(), 0);
    assert!(p.list_options().is_empty());
}

#[test]
fn first_vote_on_option_zero() {
    let mut p = strict();
    assert_eq!(p.cast_vote(Identity(1), 0, true), Ok(true));
    assert_eq!(p.get_votes(), vec![1]);
    assert_eq!(p.cast_vote(Identity(2), 0, true), Ok(true));
    assert_eq!(p.get_votes(), vec![2]);
    assert_eq!(p.cast_vote(Identity(1), 0, true), Err(VoteError::DuplicateVote));
    assert_eq!(p.get_votes(), vec![2]);
}

#[test]
fn lazy_growth_to_voted_index() {
    let mut p = strict();
    assert_eq!(p.cast_vote(Identity(1), 3, true), Ok(true));
    assert_eq!(p.get_votes(), vec![0, 0, 0, 1]);
}

#[test]
fn duplicate_vote_rejected_and_tallies_unchanged() {
    let mut p = strict();
    assert_eq!(p.cast_vote(Identity(9), 2, true), Ok(true));
    let before = p.get_votes();
    assert_eq!(p.cast_vote(Identity(9), 0, true), Err(VoteError::DuplicateVote));
    assert_eq!(p.cast_vote(Identity(9), 2, true), Err(VoteError::DuplicateVote));
    assert_eq!(p.get_votes(), before);
    assert_eq!(p.get_total_votes(), 1);
}

#[test]
fn unauthorized_vote_rejected_and_tallies_unchanged() {
    let mut p = strict();
    assert_eq!(p.cast_vote(Identity(1), 0, true), Ok(true));
    assert_eq!(p.cast_vote(Identity(2), 0, false), Err(VoteError::Unauthorized));
    assert_eq!(p.get_votes(), vec![1]);
    assert_eq!(p.get_total_votes(), 1);
}

#[test]
fn votes_at_scattered_indices_in_any_order() {
    let orders: [[u32; 3]; 6] = [
        [2, 0, 5],
        [2, 5, 0],
        [0, 2, 5],
        [0, 5, 2],
        [5, 0, 2],
        [5, 2, 0],
    ];
    for order in orders {
        let mut p = strict();
        for (v, option) in order.into_iter().enumerate() {
            assert_eq!(p.cast_vote(Identity(v as u64), option, true), Ok(true));
        }
        assert_eq!(p.get_votes(), vec![1, 0, 1, 0, 0, 1]);
    }
}

#[test]
fn total_votes_counts_distinct_identities() {
    let mut p = strict();
    for id in 0..5u64 {
        assert_eq!(p.cast_vote(Identity(id), (id % 2) as u32, true), Ok(true));
    }
    // Repeats and an unauthorized attempt are not counted.
    let _ = p.cast_vote(Identity(0), 0, true);
    let _ = p.cast_vote(Identity(4), 1, true);
    let _ = p.cast_vote(Identity(7), 0, false);
    assert_eq!(p.get_total_votes(), 5);
    assert_eq!(p.get_votes(), vec![3, 2]);
}

#[test]
fn reads_are_idempotent() {
    let mut p = strict();
    p.init(vec![String::from("Yes"), String::from("No")]);
    let _ = p.cast_vote(Identity(1), 1, true);
    assert_eq!(p.get_votes(), p.get_votes());
    assert_eq!(p.get_results(), p.get_results());
    assert_eq!(p.list_options(), p.list_options());
    assert_eq!(p.get_total_votes(), p.get_total_votes());
}

#[test]
fn get_results_matches_get_votes() {
    let mut p = strict();
    let _ = p.cast_vote(Identity(3), 4, true);
    let _ = p.cast_vote(Identity(5), 1, true);
    assert_eq!(p.get_results(), p.get_votes());
    assert_eq!(p.get_results(), vec![0, 1, 0, 0, 1]);
}

#[test]
fn defined_options_are_listed_and_unaffected_by_votes() {
    let mut p = strict();
    let poll_id = p.init(vec![String::from("Yes"), String::from("No")]);
    assert_eq!(poll_id, 1);
    assert_eq!(p.list_options(), &[String::from("Yes"), String::from("No")]);
    let _ = p.cast_vote(Identity(1), 0, true);
    let _ = p.cast_vote(Identity(2), 7, true);
    assert_eq!(p.list_options(), &[String::from("Yes"), String::from("No")]);
}

#[test]
fn redefining_options_overwrites_catalog_and_keeps_votes() {
    let mut p = strict();
    p.init(vec![String::from("A")]);
    let _ = p.cast_vote(Identity(1), 0, true);
    let poll_id = p.init(vec![String::from("B"), String::from("C")]);
    assert_eq!(poll_id, 1);
    assert_eq!(p.list_options(), &[String::from("B"), String::from("C")]);
    assert_eq!(p.get_votes(), vec![1]);
}

#[test]
fn vote_reports_option_and_new_count() {
    let mut p = strict();
    let ev = p.vote(6, Identity(1), true).unwrap();
    assert_eq!(ev.option_index, 6);
    assert_eq!(ev.new_count, 1);
    let ev = p.vote(6, Identity(2), true).unwrap();
    assert_eq!(ev.option_index, 6);
    assert_eq!(ev.new_count, 2);
    assert_eq!(p.vote(6, Identity(1), true), Err(VoteError::DuplicateVote));
    assert_eq!(p.vote(0, Identity(3), false), Err(VoteError::Unauthorized));
    assert_eq!(p.get_votes(), vec![0, 0, 0, 0, 0, 0, 2]);
}

#[test]
fn permissive_policy_counts_repeated_identity() {
    let mut p = PollContract::new(DuplicatePolicy::Permissive);
    assert_eq!(p.cast_vote(Identity(1), 0, true), Ok(true));
    assert_eq!(p.cast_vote(Identity(1), 0, true), Ok(true));
    assert_eq!(p.get_votes(), vec![2]);
    assert_eq!(p.get_total_votes(), 2);
    // The authorization verdict still gates a permissive store.
    assert_eq!(p.cast_vote(Identity(1), 0, false), Err(VoteError::Unauthorized));
    assert_eq!(p.get_votes(), vec![2]);
}
