use vstd::prelude::*;

use crate::error::ConstructError;
use crate::interop::ArbInterop;
use crate::tree::ArbValueTree;
use core::marker::PhantomData;
use proptest::prelude::RngCore;

verus! {

#[verifier::external_type_specification]
#[verifier::external_body]
pub struct ExTestRunner(proptest::test_runner::TestRunner);

#[verifier::external_type_specification]
#[verifier::external_body]
pub struct ExReason(proptest::test_runner::Reason);

/// Relies on `PhantomData`'s `Clone` impl: a `PhantomData<T>` is a unit
/// value, and its clone is that same unit value.
pub assume_specification<T: core::marker::PointeeSized>[ <PhantomData<T> as Clone>::clone ](
    v: &PhantomData<T>,
) -> (r: PhantomData<T>)
    ensures
        r == *v,
;

/// How many more generation attempts the runner is still willing to discard:
/// the gap between its configured limit on local rejections and the
/// rejections it has recorded so far.
pub uninterp spec fn rejections_left(runner: proptest::test_runner::TestRunner) -> nat;

/// Relies on `TestRunner::rng` and `RngCore::fill_bytes`: draws `n` random
/// bytes, touching nothing in the runner but its random-number generator.
#[verifier::external_body]
fn draw_bytes(runner: &mut proptest::test_runner::TestRunner, n: usize) -> (r: Vec<u8>)
    ensures
        r@.len() == n,
        rejections_left(*final(runner)) == rejections_left(*old(runner)),
{
    let mut buf: Vec<u8> = vec![0u8; n];
    runner.rng().fill_bytes(&mut buf);
    buf
}

/// Relies on `TestRunner::reject_local`: while the configured budget of local
/// rejections is not exhausted it records one more rejection and succeeds;
/// once the budget is spent it records nothing and fails.
#[verifier::external_body]
fn reject_attempt(runner: &mut proptest::test_runner::TestRunner, whence: &str) -> (r: Result<
    (),
    proptest::test_runner::Reason,
>)
    ensures
        (r is Ok) == (rejections_left(*old(runner)) > 0),
        r is Ok ==> rejections_left(*final(runner)) == rejections_left(*old(runner)) - 1,
        r is Err ==> rejections_left(*final(runner)) == 0,
{
    runner.reject_local(whence.to_string())
}

/// Why a strategy invocation failed to produce a candidate tracker.
#[derive(Debug)]
pub enum StrategyError {
    /// The host framework's budget for locally rejected generation attempts
    /// ran out, with the reason it reported.
    RejectLimit(proptest::test_runner::Reason),
    /// The consumer reported a non-recoverable construction error, with its
    /// message. Never retried.
    Fatal(String),
}

/// Default number of random bytes a strategy draws per generation attempt
/// when no explicit size is given.
pub const DEFAULT_SIZE: usize = 256;

/// A strategy for one consumer type: immutable configuration holding how
/// many random bytes to draw per generation attempt.
#[derive(Copy, Clone, PartialEq, Eq, PartialOrd, Ord, Hash, Debug)]
pub struct ArbStrategy<A: ArbInterop> {
    _marker: PhantomData<A>,
    size: usize,
}

impl<A: ArbInterop> ArbStrategy<A> {
    /// The number of random bytes drawn per generation attempt.
    pub closed spec fn spec_size(&self) -> usize {
        self.size
    }

    /// A strategy that draws `size` random bytes per generation attempt.
    pub fn new(size: usize) -> (s: Self)
        ensures
            s.spec_size() == size,
    {
        Self { _marker: PhantomData, size }
    }

    /// Draw fresh random buffers and hand each to the consumer until one
    /// constructs. A buffer the consumer calls malformed is reported to the
    /// host as a local rejection and replaced by a new one, so the loop runs
    /// at most as long as the host's rejection budget allows; any other
    /// construction error fails the whole invocation at once, carrying the
    /// consumer's own message. A consumer that accepts every buffer of the
    /// configured size always yields a tracker.
    pub fn new_tree(&self, runner: &mut proptest::test_runner::TestRunner) -> (r: Result<
        ArbValueTree<A>,
        StrategyError,
    >)
        ensures
            r matches Ok(t) ==> t.wf() && t.spec_bytes().len() == self.spec_size()
                && t.is_fresh(t.spec_bytes()),
            r matches Err(e) ==> (e matches StrategyError::RejectLimit(_) ==> rejections_left(
                *final(runner),
            ) == 0 && exists|b: Seq<u8>|
                b.len() == self.spec_size() && #[trigger] A::construct_spec(b) == Err::<
                    A,
                    ConstructError,
                >(ConstructError::MalformedInput)),
            r matches Err(e) ==> (e matches StrategyError::Fatal(m) ==> exists|b: Seq<u8>|
                b.len() == self.spec_size() && #[trigger] A::construct_spec(b) == Err::<
                    A,
                    ConstructError,
                >(ConstructError::Other(m))),
            (forall|b: Seq<u8>|
                b.len() == self.spec_size() ==> (#[trigger] A::construct_spec(b)) is Ok) ==> r
                is Ok,
    {
        loop
            decreases rejections_left(*runner),
        {
            let bytes = draw_bytes(runner, self.size);
            let ghost drawn = bytes@;
            match ArbValueTree::<A>::new(bytes) {
                Ok(tree) => {
                    return Ok(tree);
                },
                Err(ConstructError::MalformedInput) => {
                    proof {
                        assert(drawn.len() == self.spec_size() && A::construct_spec(drawn)
                            == Err::<A, ConstructError>(ConstructError::MalformedInput));
                    }
                    match reject_attempt(
                        runner,
                        "the byte buffer was malformed input for this consumer",
                    ) {
                        Ok(_) => {},
                        Err(reason) => {
                            return Err(StrategyError::RejectLimit(reason));
                        },
                    }
                },
                Err(ConstructError::Other(message)) => {
                    proof {
                        assert(drawn.len() == self.spec_size() && A::construct_spec(drawn)
                            == Err::<A, ConstructError>(ConstructError::Other(message)));
                    }
                    return Err(StrategyError::Fatal(message));
                },
            }
        }
    }
}

/// A strategy for the consumer type `A` that draws `size` random bytes per
/// generation attempt.
pub fn arb_sized<A: ArbInterop>(size: usize) -> (s: ArbStrategy<A>)
    ensures
        s.spec_size() == size,
{
    ArbStrategy::new(size)
}

/// A strategy for the consumer type `A` with the default attempt size,
/// [`DEFAULT_SIZE`].
pub fn arb<A: ArbInterop>() -> (s: ArbStrategy<A>)
    ensures
        s.spec_size() == DEFAULT_SIZE,
{
    arb_sized(DEFAULT_SIZE)
}

} // verus!
