use vstd::prelude::*;

use crate::error::ConstructError;
use crate::interop::ArbInterop;
use vstd::slice::slice_subrange;

verus! {

/// Whether the consumer produces exactly `v` from some prefix of `bytes`.
pub open spec fn from_some_prefix<A: ArbInterop>(bytes: Seq<u8>, v: A) -> bool {
    exists|n: int|
        0 <= n <= bytes.len() && #[trigger] A::construct_spec(bytes.take(n)) == Ok::<
            A,
            ConstructError,
        >(v)
}

/// The shrink-search cursor over one fixed byte buffer.
///
/// It owns the original buffer, the currently reported value, a single-slot
/// undo history, and the prefix length that the next simplification attempt
/// will try. The buffer itself never changes; shrinking only shortens the
/// prefix handed to the consumer.
pub struct ArbValueTree<A: ArbInterop> {
    bytes: Vec<u8>,
    curr: A,
    prev: Option<A>,
    next: usize,
}

impl<A: ArbInterop> ArbValueTree<A> {
    /// The fixed byte buffer the tracker owns.
    pub closed spec fn spec_bytes(&self) -> Seq<u8> {
        self.bytes@
    }

    /// The currently reported candidate value.
    pub closed spec fn spec_curr(&self) -> A {
        self.curr
    }

    /// The single-slot undo history: present exactly when one simplification
    /// succeeded and has not been undone yet.
    pub closed spec fn spec_prev(&self) -> Option<A> {
        self.prev
    }

    /// The buffer-prefix length the next simplification attempt will try.
    pub closed spec fn spec_next(&self) -> int {
        self.next as int
    }

    /// Well-formedness: the cursor stays within the buffer, and every value
    /// the tracker holds was produced by the consumer from some prefix of
    /// that buffer.
    pub open spec fn wf(&self) -> bool {
        &&& 0 <= self.spec_next() <= self.spec_bytes().len()
        &&& from_some_prefix(self.spec_bytes(), self.spec_curr())
        &&& match self.spec_prev() {
            Some(p) => from_some_prefix(self.spec_bytes(), p),
            None => true,
        }
    }

    /// Both trackers hold the same buffer, values and cursor.
    pub open spec fn same_state(pre: Self, post: Self) -> bool {
        &&& post.spec_bytes() == pre.spec_bytes()
        &&& post.spec_curr() == pre.spec_curr()
        &&& post.spec_prev() == pre.spec_prev()
        &&& post.spec_next() == pre.spec_next()
    }

    /// The state of a tracker freshly created from `bytes`: full-length
    /// cursor, empty undo slot, and the value the consumer derives from the
    /// whole buffer.
    pub open spec fn is_fresh(&self, bytes: Seq<u8>) -> bool {
        &&& self.spec_bytes() == bytes
        &&& self.spec_next() == bytes.len()
        &&& self.spec_prev() is None
        &&& A::construct_spec(bytes) == Ok::<A, ConstructError>(self.spec_curr())
    }

    /// How one `simplify` call relates the state before (`pre`) to the state
    /// after (`post`) and to its return value `ret`.
    ///
    /// With the cursor at zero the call is a pure no-op returning `false`.
    /// Otherwise the cursor moves down by one — whether or not the shorter
    /// prefix constructs — and the call succeeds exactly when the consumer
    /// accepts that prefix, in which case the old value moves into the undo
    /// slot and the newly constructed one is reported.
    pub open spec fn simplify_rel(pre: Self, post: Self, ret: bool) -> bool {
        if pre.spec_next() == 0 {
            !ret && Self::same_state(pre, post)
        } else {
            &&& post.spec_bytes() == pre.spec_bytes()
            &&& post.spec_next() == pre.spec_next() - 1
            &&& ret == (A::construct_spec(pre.spec_bytes().take(pre.spec_next() - 1)) is Ok)
            &&& if ret {
                &&& post.spec_prev() == Some(pre.spec_curr())
                &&& A::construct_spec(pre.spec_bytes().take(pre.spec_next() - 1)) == Ok::<
                    A,
                    ConstructError,
                >(post.spec_curr())
            } else {
                &&& post.spec_curr() == pre.spec_curr()
                &&& post.spec_prev() == pre.spec_prev()
            }
        }
    }

    /// How one `complicate` call relates the state before to the state after
    /// and to its return value: with a pending undo slot it restores that
    /// value, clears the slot and succeeds; otherwise it is a pure no-op
    /// returning `false`. The cursor never moves back up.
    pub open spec fn complicate_rel(pre: Self, post: Self, ret: bool) -> bool {
        match pre.spec_prev() {
            Some(p) => {
                &&& ret
                &&& post.spec_bytes() == pre.spec_bytes()
                &&& post.spec_next() == pre.spec_next()
                &&& post.spec_curr() == p
                &&& post.spec_prev() is None
            },
            None => !ret && Self::same_state(pre, post),
        }
    }

    /// Run the consumer on the first `size` bytes of the buffer.
    fn gen_one_with_size(bytes: &Vec<u8>, size: usize) -> (r: Result<A, ConstructError>)
        requires
            size <= bytes@.len(),
        ensures
            r == A::construct_spec(bytes@.take(size as int)),
    {
        A::construct(slice_subrange(bytes.as_slice(), 0, size))
    }

    /// Create a tracker that owns `bytes`: derive the initial value from the
    /// full buffer, or propagate the consumer's error unchanged.
    pub fn new(bytes: Vec<u8>) -> (r: Result<Self, ConstructError>)
        ensures
            (r is Ok) == (A::construct_spec(bytes@) is Ok),
            r matches Ok(t) ==> t.wf() && t.is_fresh(bytes@),
            r matches Err(e) ==> A::construct_spec(bytes@) == Err::<A, ConstructError>(e),
    {
        let next = bytes.len();
        proof {
            assert(bytes@.take(next as int) == bytes@);
        }
        match Self::gen_one_with_size(&bytes, next) {
            Ok(curr) => Ok(ArbValueTree { bytes, prev: None, curr, next }),
            Err(e) => Err(e),
        }
    }

    /// The currently reported candidate value, as an owned copy.
    pub fn current(&self) -> (r: A)
        ensures
            r == self.spec_curr(),
    {
        self.curr.clone_value()
    }

    /// Try the next shorter buffer prefix. The cursor moves down by one on
    /// every call that finds it above zero, so the prefix length never
    /// increases and a run of successful calls makes at most `bytes.len()`
    /// steps; once the cursor reaches zero the call mutates nothing.
    pub fn simplify(&mut self) -> (r: bool)
        requires
            old(self).wf(),
        ensures
            final(self).wf(),
            Self::simplify_rel(*old(self), *final(self), r),
            final(self).spec_next() <= old(self).spec_next(),
    {
        if self.next == 0 {
            return false;
        }
        self.next = self.next - 1;
        match Self::gen_one_with_size(&self.bytes, self.next) {
            Ok(simpler) => {
                let mut displaced = simpler;
                core::mem::swap(&mut self.curr, &mut displaced);
                self.prev = Some(displaced);
                true
            },
            Err(_) => false,
        }
    }

    /// Undo the last successful simplification, unless it has already been
    /// undone: only one step of history is kept, so two consecutive calls
    /// never both succeed.
    pub fn complicate(&mut self) -> (r: bool)
        requires
            old(self).wf(),
        ensures
            final(self).wf(),
            Self::complicate_rel(*old(self), *final(self), r),
    {
        match self.prev.take() {
            Some(p) => {
                self.curr = p;
                true
            },
            None => false,
        }
    }
}

/// `states` records a run of `simplify` calls: each consecutive pair of
/// states is related by `simplify_rel` with the corresponding return value.
pub open spec fn simplify_chain<A: ArbInterop>(
    states: Seq<ArbValueTree<A>>,
    rets: Seq<bool>,
) -> bool {
    &&& states.len() == rets.len() + 1
    &&& forall|i: int|
        0 <= i < rets.len() ==> #[trigger] ArbValueTree::<A>::simplify_rel(
            states[i],
            states[i + 1],
            rets[i],
        )
}

/// Seed determinism: trackers freshly created from the same byte buffer
/// report the same initial value.
pub proof fn lemma_create_deterministic<A: ArbInterop>(
    t1: ArbValueTree<A>,
    t2: ArbValueTree<A>,
    bytes: Seq<u8>,
)
    requires
        t1.is_fresh(bytes),
        t2.is_fresh(bytes),
    ensures
        t1.spec_curr() == t2.spec_curr(),
{
}

/// Monotonic shrink size: across any run of `simplify` calls, successful or
/// not, the prefix cursor never increases.
pub proof fn lemma_simplify_monotonic<A: ArbInterop>(
    states: Seq<ArbValueTree<A>>,
    rets: Seq<bool>,
    i: int,
    j: int,
)
    requires
        simplify_chain(states, rets),
        0 <= i <= j < states.len(),
    ensures
        states[j].spec_next() <= states[i].spec_next(),
    decreases j - i,
{
    if i < j {
        lemma_simplify_monotonic(states, rets, i, j - 1);
        assert(ArbValueTree::<A>::simplify_rel(states[j - 1], states[j - 1 + 1], rets[j - 1]));
    }
}

/// Along a run of successful `simplify` calls the cursor falls by exactly one
/// per call.
proof fn lemma_successful_run_cursor<A: ArbInterop>(
    states: Seq<ArbValueTree<A>>,
    rets: Seq<bool>,
    k: int,
)
    requires
        simplify_chain(states, rets),
        forall|i: int| 0 <= i < rets.len() ==> rets[i] == true,
        0 <= k <= rets.len(),
    ensures
        states[k].spec_next() == states[0].spec_next() - k,
    decreases k,
{
    if k > 0 {
        lemma_successful_run_cursor(states, rets, k - 1);
        assert(ArbValueTree::<A>::simplify_rel(states[k - 1], states[k - 1 + 1], rets[k - 1]));
    }
}

/// Termination: a run of `simplify` calls that all succeed makes at most
/// `next` steps, and so at most `bytes.len()` steps from a well-formed
/// state — repeated simplification cannot go on forever.
pub proof fn lemma_simplify_terminates<A: ArbInterop>(
    states: Seq<ArbValueTree<A>>,
    rets: Seq<bool>,
)
    requires
        simplify_chain(states, rets),
        states[0].wf(),
        forall|i: int| 0 <= i < rets.len() ==> rets[i] == true,
    ensures
        rets.len() <= states[0].spec_next() <= states[0].spec_bytes().len(),
{
    lemma_successful_run_cursor(states, rets, rets.len() as int);
}

/// Single-step undo: after a successful `simplify`, one `complicate` call
/// succeeds and restores the previously reported value, and a second
/// consecutive `complicate` call fails and changes nothing.
pub proof fn lemma_single_step_undo<A: ArbInterop>(
    s0: ArbValueTree<A>,
    s1: ArbValueTree<A>,
    s2: ArbValueTree<A>,
    r2: bool,
    s3: ArbValueTree<A>,
    r3: bool,
)
    requires
        ArbValueTree::<A>::simplify_rel(s0, s1, true),
        ArbValueTree::<A>::complicate_rel(s1, s2, r2),
        ArbValueTree::<A>::complicate_rel(s2, s3, r3),
    ensures
        r2 == true,
        s2.spec_curr() == s0.spec_curr(),
        r3 == false,
        ArbValueTree::<A>::same_state(s2, s3),
{
}

/// Exhaustion: once the cursor has reached zero, `simplify` fails and
/// mutates nothing, on this and on every later call.
pub proof fn lemma_exhausted_noop<A: ArbInterop>(
    pre: ArbValueTree<A>,
    post: ArbValueTree<A>,
    ret: bool,
)
    requires
        pre.spec_next() == 0,
        ArbValueTree::<A>::simplify_rel(pre, post, ret),
    ensures
        ret == false,
        ArbValueTree::<A>::same_state(pre, post),
{
}

/// The state reached by a run of `simplify` calls that started exhausted is
/// still the starting state.
proof fn lemma_exhausted_prefix<A: ArbInterop>(
    states: Seq<ArbValueTree<A>>,
    rets: Seq<bool>,
    k: int,
)
    requires
        simplify_chain(states, rets),
        states[0].spec_next() == 0,
        0 <= k < states.len(),
    ensures
        ArbValueTree::<A>::same_state(states[0], states[k]),
    decreases k,
{
    if k > 0 {
        lemma_exhausted_prefix(states, rets, k - 1);
        assert(ArbValueTree::<A>::simplify_rel(states[k - 1], states[k - 1 + 1], rets[k - 1]));
    }
}

/// Exhaustion persists: once the cursor has reached zero, every later
/// `simplify` call in a run fails and the state never changes again.
pub proof fn lemma_exhausted_run<A: ArbInterop>(states: Seq<ArbValueTree<A>>, rets: Seq<bool>)
    requires
        simplify_chain(states, rets),
        states[0].spec_next() == 0,
    ensures
        forall|k: int|
            0 <= k < states.len() ==> ArbValueTree::<A>::same_state(states[0], states[k]),
        forall|k: int| 0 <= k < rets.len() ==> rets[k] == false,
{
    assert forall|k: int|
        0 <= k < states.len() implies ArbValueTree::<A>::same_state(states[0], states[k]) by {
        lemma_exhausted_prefix(states, rets, k);
    }
    assert forall|k: int| 0 <= k < rets.len() implies rets[k] == false by {
        lemma_exhausted_prefix(states, rets, k);
        assert(ArbValueTree::<A>::simplify_rel(states[k], states[k + 1], rets[k]));
    }
}

/// Construction purity: the consumer's result is a function of the bytes
/// alone, so equal buffers construct equal values.
pub proof fn lemma_construct_pure<A: ArbInterop>(b1: Seq<u8>, b2: Seq<u8>)
    requires
        b1 == b2,
    ensures
        A::construct_spec(b1) == A::construct_spec(b2),
{
}

} // verus!
