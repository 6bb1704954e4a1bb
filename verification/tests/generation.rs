use proptest::test_runner::TestRunner;
use proptest_arbitrary_interop::consumers::Rgb;
use proptest_arbitrary_interop::{arb, arb_sized, ArbStrategy, StrategyError, DEFAULT_SIZE};

#[test]
fn default_size_is_256() {
    assert_eq!(DEFAULT_SIZE, 256);
}

#[test]
fn strategy_new_sets_the_attempt_size() {
    let mut runner = TestRunner::default();
    let strategy: ArbStrategy<u32> = ArbStrategy::new(4);
    let mut tree = strategy.new_tree(&mut runner).unwrap();
    let mut successes = 0usize;
    while tree.simplify() {
        successes += 1;
        assert!(successes <= 4);
    }
    assert_eq!(successes, 4);
}

#[test]
fn new_tree_yields_a_working_tracker() {
    let mut runner = TestRunner::default();
    let strategy: ArbStrategy<u32> = arb_sized(8);
    let mut tree = strategy.new_tree(&mut runner).unwrap();
    let initial = tree.current();
    // The u32 consumer accepts every prefix, so the first simplification
    // succeeds and one complication restores the initial value.
    assert!(tree.simplify());
    assert!(tree.complicate());
    assert_eq!(tree.current(), initial);
}

#[test]
fn new_tree_draws_the_configured_number_of_bytes() {
    let mut runner = TestRunner::default();
    let strategy: ArbStrategy<u32> = arb_sized(6);
    let mut tree = strategy.new_tree(&mut runner).unwrap();
    // Every prefix of a six-byte buffer constructs a u32, so the run of
    // successful simplifications is exactly six calls long.
    let mut successes = 0usize;
    while tree.simplify() {
        successes += 1;
        assert!(successes <= 6);
    }
    assert_eq!(successes, 6);
}

#[test]
fn arb_uses_the_default_size() {
    let mut runner = TestRunner::default();
    let strategy: ArbStrategy<u32> = arb();
    let mut tree = strategy.new_tree(&mut runner).unwrap();
    let mut successes = 0usize;
    while tree.simplify() {
        successes += 1;
        assert!(successes <= DEFAULT_SIZE);
    }
    assert_eq!(successes, DEFAULT_SIZE);
}

#[test]
fn new_tree_retries_malformed_buffers_until_the_budget_ends() {
    // Two random bytes can never construct an Rgb, so every attempt is
    // rejected locally and the strategy finally fails with the host's
    // rejection limit, not with a construction error.
    let mut runner = TestRunner::default();
    let strategy: ArbStrategy<Rgb> = arb_sized(2);
    match strategy.new_tree(&mut runner) {
        Err(StrategyError::RejectLimit(_)) => {}
        other => panic!("expected the rejection budget to run out, got {:?}", other.map(|t| t.current())),
    }
}

#[test]
fn new_tree_succeeds_when_the_buffer_is_large_enough() {
    let mut runner = TestRunner::default();
    let strategy: ArbStrategy<Rgb> = arb_sized(3);
    let tree = strategy.new_tree(&mut runner).unwrap();
    // Any three random bytes construct: the tracker reports some color.
    let _ = tree.current();
}

#[test]
fn zero_size_is_legal() {
    // The consumer must be given the chance to handle an empty buffer: the
    // u32 consumer accepts it, the Rgb consumer rejects every attempt.
    let mut runner = TestRunner::default();
    let strategy: ArbStrategy<u32> = arb_sized(0);
    let tree = strategy.new_tree(&mut runner).unwrap();
    assert_eq!(tree.current(), 0);

    let rgb_strategy: ArbStrategy<Rgb> = arb_sized(0);
    assert!(matches!(
        rgb_strategy.new_tree(&mut runner),
        Err(StrategyError::RejectLimit(_))
    ));
}
