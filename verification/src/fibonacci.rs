//! The Fibonacci numbers that fit in 32 bits, handed out one by one.

use vstd::prelude::*;

verus! {

/// The Fibonacci sequence 1, 1, 2, 3, 5, 8, ...: it starts with two ones,
/// and every later number is the sum of the two before it.
pub open spec fn fibonacci(i: nat) -> nat
    decreases i,
{
    if i < 2 {
        1
    } else {
        fibonacci((i - 1) as nat) + fibonacci((i - 2) as nat)
    }
}

/// How many numbers a [`Fib`] hands out before it is exhausted.
pub const FIB_COUNT: usize = 45;

/// The sequence never decreases.
pub proof fn lemma_fibonacci_monotonic(i: nat, j: nat)
    requires
        i <= j,
    ensures
        fibonacci(i) <= fibonacci(j),
    decreases j,
{
    if i < j {
        lemma_fibonacci_monotonic(i, (j - 1) as nat);
    }
}

/// Two neighbours of the sequence, reached from its start one step at a
/// time: the numbers at `steps` and at `steps + 1`.
spec fn neighbours(steps: nat) -> (nat, nat)
    decreases steps,
{
    if steps == 0 {
        (1, 1)
    } else {
        let before = neighbours((steps - 1) as nat);
        (before.1, before.0 + before.1)
    }
}

/// Stepping from the start reaches the sequence's own numbers.
proof fn lemma_neighbours(steps: nat)
    ensures
        neighbours(steps) == (fibonacci(steps), fibonacci(steps + 1)),
    decreases steps,
{
    if steps > 0 {
        lemma_neighbours((steps - 1) as nat);
    }
}

/// The neighbours at 46, computed eight steps at a time.
proof fn lemma_neighbours_at_limit()
    ensures
        neighbours(46) == (2971215073nat, 4807526976nat),
{
    assert(neighbours(8) == (34nat, 55nat)) by {
        reveal_with_fuel(neighbours, 9);
    }
    assert(neighbours(16) == (1597nat, 2584nat)) by {
        reveal_with_fuel(neighbours, 9);
    }
    assert(neighbours(24) == (75025nat, 121393nat)) by {
        reveal_with_fuel(neighbours, 9);
    }
    assert(neighbours(32) == (3524578nat, 5702887nat)) by {
        reveal_with_fuel(neighbours, 9);
    }
    assert(neighbours(40) == (165580141nat, 267914296nat)) by {
        reveal_with_fuel(neighbours, 9);
    }
    assert(neighbours(46) == (2971215073nat, 4807526976nat)) by {
        reveal_with_fuel(neighbours, 9);
    }
}

/// The number at index 46 is the last one that fits in 32 bits.
pub proof fn lemma_fibonacci_limit()
    ensures
        fibonacci(46) == 2971215073,
        fibonacci(47) == 4807526976,
{
    lemma_neighbours(46);
    lemma_neighbours_at_limit();
}

/// A walk along the Fibonacci sequence, as far as 32 bits reach.
///
/// It hands out the numbers from index 1 on: 1, 2, 3, 5, 8, ... The walk
/// holds the last number handed out and the one that follows it; it is
/// exhausted once the number after those two no longer fits in 32 bits.
pub struct Fib {
    current: u32,
    following: u32,
    produced: Ghost<nat>,
}

impl View for Fib {
    type V = nat;

    /// How many numbers the walk has handed out.
    closed spec fn view(&self) -> nat {
        self.produced@
    }
}

impl Fib {
    /// The two numbers held are neighbours of the sequence, at the place
    /// that the count of numbers handed out gives.
    #[verifier::type_invariant]
    spec fn inv(self) -> bool {
        &&& self.produced@ <= FIB_COUNT
        &&& self.current == fibonacci(self.produced@)
        &&& self.following == fibonacci(self.produced@ + 1)
    }

    /// Hands out the next number of the sequence, or `None` once the walk
    /// is exhausted. An exhausted walk stays as it is.
    pub fn next(&mut self) -> (r: Option<u32>)
        ensures
            old(self)@ <= FIB_COUNT,
            match r {
                Some(v) => {
                    &&& old(self)@ < FIB_COUNT
                    &&& v == fibonacci(old(self)@ + 1)
                    &&& final(self)@ == old(self)@ + 1
                },
                None => old(self)@ == FIB_COUNT && final(self)@ == old(self)@,
            },
    {
        proof {
            use_type_invariant(&*self);
            lemma_fibonacci_limit();
            if self.produced@ < FIB_COUNT {
                lemma_fibonacci_monotonic(self.produced@ + 2, 46);
            }
        }
        let ghost k: nat = self.produced@;
        match self.current.checked_add(self.following) {
            Some(sum) => {
                let out: u32 = self.following;
                *self = Fib { current: out, following: sum, produced: Ghost(k + 1) };
                Some(out)
            },
            None => None,
        }
    }

    /// Hands out the next `count` numbers in order, or all that are left
    /// where fewer are.
    pub fn take(&mut self, count: usize) -> (v: Vec<u32>)
        ensures
            old(self)@ <= FIB_COUNT,
            v@.len() == if count <= FIB_COUNT - old(self)@ {
                count as int
            } else {
                FIB_COUNT - old(self)@
            },
            forall|i: int| 0 <= i < v@.len() ==> v@[i] == fibonacci((old(self)@ + 1 + i) as nat),
            final(self)@ == old(self)@ + v@.len(),
    {
        proof {
            use_type_invariant(&*self);
        }
        let ghost start: nat = self@;
        let mut v: Vec<u32> = Vec::new();
        let mut left: usize = count;
        while left > 0
            invariant
                self@ <= FIB_COUNT,
                self@ == start + v@.len(),
                v@.len() + left == count,
                forall|i: int| 0 <= i < v@.len() ==> v@[i] == fibonacci((start + 1 + i) as nat),
            ensures
                left == 0 || self@ == FIB_COUNT,
            decreases left,
        {
            match self.next() {
                Some(x) => {
                    v.push(x);
                    left = left - 1;
                },
                None => {
                    break ;
                },
            }
        }
        v
    }

    /// Passes over the next `count` numbers, or over all that are left where
    /// fewer are.
    pub fn skip(&mut self, count: usize)
        ensures
            old(self)@ <= FIB_COUNT,
            final(self)@ == if count <= FIB_COUNT - old(self)@ {
                old(self)@ + count
            } else {
                FIB_COUNT as int
            },
    {
        proof {
            use_type_invariant(&*self);
        }
        let ghost start: nat = self@;
        let mut left: usize = count;
        while left > 0
            invariant
                self@ <= FIB_COUNT,
                left <= count,
                self@ == start + (count - left),
            ensures
                left == 0 || self@ == FIB_COUNT,
            decreases left,
        {
            match self.next() {
                Some(_) => {
                    left = left - 1;
                },
                None => {
                    break ;
                },
            }
        }
    }
}

/// Starts a walk at the beginning of the sequence.
pub fn fib() -> (f: Fib)
    ensures
        f@ == 0,
{
    Fib { current: 1, following: 1, produced: Ghost(0) }
}

} // verus!
