use vstd::prelude::*;

verus! {

/// The escape time of an orbit under an iteration cap, given how its bailout
/// tests came out: `within[n]` says whether the orbit was still within the
/// bailout radius before iteration `n`. It is the number of tests that held
/// from the first on without a break, and at most the cap.
pub open spec fn escape_time(within: Seq<bool>, cap: nat) -> nat
    decreases within.len(),
{
    if within.len() == 0 || cap == 0 || !within[0] {
        0
    } else {
        1 + escape_time(within.drop_first(), (cap - 1) as nat)
    }
}

/// The escape time is the first turn at which the loop has to stop: it is
/// within the cap and within the tests made, every test before it held, and
/// unless it is the cap or the end of the tests, the test at it failed.
pub proof fn lemma_escape_time_is_first_exit(within: Seq<bool>, cap: nat)
    ensures
        escape_time(within, cap) <= cap,
        escape_time(within, cap) <= within.len(),
        forall|k: int| 0 <= k < escape_time(within, cap) ==> within[k],
        escape_time(within, cap) < cap && escape_time(within, cap) < within.len() ==> !within[escape_time(
            within,
            cap,
        ) as int],
    decreases within.len(),
{
    if within.len() == 0 || cap == 0 || !within[0] {
    } else {
        let rest = within.drop_first();
        let below = (cap - 1) as nat;
        lemma_escape_time_is_first_exit(rest, below);
        assert forall|k: int| 0 <= k < escape_time(within, cap) implies within[k] by {
            if k > 0 {
                assert(within[k] == rest[k - 1]);
            }
        }
        if escape_time(within, cap) < cap && escape_time(within, cap) < within.len() {
            assert(within[escape_time(within, cap) as int] == rest[escape_time(rest, below) as int]);
        }
    }
}

/// One more test changes the escape time only where it extends an unbroken
/// run below the cap.
pub proof fn lemma_escape_time_push(within: Seq<bool>, cap: nat, test: bool)
    ensures
        escape_time(within.push(test), cap) == if test && escape_time(within, cap) == within.len()
            && escape_time(within, cap) < cap {
            escape_time(within, cap) + 1
        } else {
            escape_time(within, cap)
        },
    decreases within.len(),
{
    let more = within.push(test);
    if within.len() == 0 {
        assert(more.drop_first().len() == 0);
        assert(escape_time(more.drop_first(), (cap - 1) as nat) == 0);
    } else if cap == 0 || !within[0] {
        assert(more[0] == within[0]);
    } else {
        assert(more[0] == within[0]);
        assert(more.drop_first() =~= within.drop_first().push(test));
        lemma_escape_time_push(within.drop_first(), (cap - 1) as nat, test);
    }
}

/// The counting half of the escape-time loop.
///
/// The loop squares and shifts a point of the plane until it leaves the
/// bailout radius or the iteration cap is reached. The arithmetic on the
/// point is the caller's; the counter is told, turn by turn, whether the point
/// is still within the radius, counts the iterations, and says when to stop.
/// Its count is the escape time of the tests it was told of.
pub struct EscapeCounter {
    iterations: usize,
    max_iterations: usize,
    stopped: bool,
    observed: Ghost<Seq<bool>>,
}

impl EscapeCounter {
    #[verifier::type_invariant]
    spec fn counts_escape_time(self) -> bool {
        &&& self.iterations == escape_time(self.observed@, self.max_iterations as nat)
        &&& self.stopped == (self.iterations < self.observed@.len())
    }

    /// The iterations counted so far.
    pub closed spec fn count(self) -> nat {
        self.iterations as nat
    }

    /// The iteration cap.
    pub closed spec fn cap(self) -> nat {
        self.max_iterations as nat
    }

    /// The bailout tests that the counter was told of, first to last.
    pub closed spec fn observed(self) -> Seq<bool> {
        self.observed@
    }

    /// A counter at zero with the given cap, told of no test yet.
    pub fn new(max_iterations: usize) -> (counter: EscapeCounter)
        ensures
            counter.count() == 0,
            counter.cap() == max_iterations,
            counter.observed() == Seq::<bool>::empty(),
    {
        EscapeCounter {
            iterations: 0,
            max_iterations,
            stopped: false,
            observed: Ghost(Seq::empty()),
        }
    }

    /// One turn of the loop. `within_bailout` says whether the point is still
    /// within the bailout radius. The answer is whether to iterate once more:
    /// so it is while every test so far held and the count is below the cap,
    /// and that iteration is then counted. Once the answer was no, it stays no
    /// and the count stays.
    pub fn advance(&mut self, within_bailout: bool) -> (go_on: bool)
        ensures
            final(self).cap() == old(self).cap(),
            final(self).observed() == old(self).observed().push(within_bailout),
            final(self).count() == escape_time(final(self).observed(), final(self).cap()),
            go_on == (final(self).count() == final(self).observed().len()),
            final(self).count() == old(self).count() + if go_on { 1nat } else { 0nat },
    {
        proof {
            use_type_invariant(&*self);
            lemma_escape_time_push(self.observed@, self.max_iterations as nat, within_bailout);
            lemma_escape_time_is_first_exit(self.observed@, self.max_iterations as nat);
        }
        let go_on = !self.stopped && within_bailout && self.iterations < self.max_iterations;
        let iterations: usize = if go_on {
            self.iterations + 1
        } else {
            self.iterations
        };
        *self = EscapeCounter {
            iterations,
            max_iterations: self.max_iterations,
            stopped: !go_on,
            observed: Ghost(self.observed@.push(within_bailout)),
        };
        go_on
    }

    /// The iterations counted so far: the escape time of the tests told of,
    /// which is at most the cap.
    pub fn iterations(&self) -> (n: usize)
        ensures
            n == self.count(),
            n == escape_time(self.observed(), self.cap()),
            n <= self.cap(),
    {
        proof {
            use_type_invariant(self);
            lemma_escape_time_is_first_exit(self.observed@, self.max_iterations as nat);
        }
        self.iterations
    }

    /// The iteration cap.
    pub fn max_iterations(&self) -> (n: usize)
        ensures
            n == self.cap(),
    {
        self.max_iterations
    }
}

} // verus!
