//! The bounded operand stack: a last-in-first-out store of 256-bit words
//! with a hard capacity of 1024 slots. Every access is expressed as a depth
//! from the top, and every operation either succeeds or fails atomically
//! with a single overflow/underflow signal, leaving the stack unchanged.

use vstd::prelude::*;

use crate::types::{FailStatus, U256};

verus! {

/// The specification-mandated ceiling on the number of values a stack may
/// hold at any time.
pub const STACK_CAPACITY: usize = 1024;

/// The operand stack. Its view is the sequence of held values, bottom first;
/// the top of the stack is the last element of the view.
#[derive(Debug)]
pub struct Stack(Vec<U256>);

impl View for Stack {
    type V = Seq<U256>;

    closed spec fn view(&self) -> Seq<U256> {
        self.0@
    }
}

/// The sequence `s` with the element at depth `k` from the top exchanged
/// with the top element.
pub open spec fn spec_swap_with_top(s: Seq<U256>, k: int) -> Seq<U256>
    recommends
        0 <= k < s.len(),
{
    let top = s.len() - 1;
    s.update(top, s[top - k]).update(top - k, s[top])
}

impl Stack {
    /// Well-formedness: the stack never holds more than `STACK_CAPACITY`
    /// values. `new` establishes this and every operation preserves it.
    pub open spec fn inv(&self) -> bool {
        self@.len() <= STACK_CAPACITY
    }

    /// Builds a stack seeded with the first `min(inner.len(), 1024)` values
    /// of `inner`, in order. Seeding is the one place where excess input is
    /// discarded rather than rejected: it models inheriting a possibly
    /// oversized starting stack, while every later `push` is strictly
    /// bounded.
    pub fn new(inner: &[U256]) -> (s: Stack)
        ensures
            s.inv(),
            inner@.len() <= STACK_CAPACITY ==> s@ == inner@,
            inner@.len() > STACK_CAPACITY ==> s@ == inner@.take(STACK_CAPACITY as int),
    {
        let n: usize = if inner.len() < STACK_CAPACITY {
            inner.len()
        } else {
            STACK_CAPACITY
        };
        let mut v: Vec<U256> = Vec::with_capacity(STACK_CAPACITY);
        let mut i: usize = 0;
        while i < n
            invariant
                i <= n,
                n <= inner@.len(),
                n <= STACK_CAPACITY,
                v@ == inner@.take(i as int),
            decreases n - i,
        {
            v.push(inner[i]);
            proof {
                assert(inner@.take(i + 1) =~= inner@.take(i as int).push(inner@[i as int]));
            }
            i = i + 1;
        }
        proof {
            if inner@.len() <= STACK_CAPACITY {
                assert(inner@.take(n as int) =~= inner@);
            }
        }
        Stack(v)
    }

    /// The held values, bottom first.
    pub fn as_slice(&self) -> (r: &[U256])
        ensures
            r@ == self@,
    {
        self.0.as_slice()
    }

    /// How many values the stack currently holds.
    pub fn len(&self) -> (r: usize)
        ensures
            r == self@.len(),
    {
        self.0.len()
    }

    /// Appends `value` at the top, or fails with `StackOverflow` when the
    /// stack already holds 1024 values, leaving it unchanged. The capacity
    /// ceiling is enforced here and only here.
    pub fn push(&mut self, value: U256) -> (r: Result<(), FailStatus>)
        requires
            old(self).inv(),
        ensures
            final(self).inv(),
            old(self)@.len() < STACK_CAPACITY ==> r == Ok::<(), FailStatus>(()) && final(self)@
                == old(self)@.push(value),
            old(self)@.len() == STACK_CAPACITY ==> r == Err::<(), FailStatus>(
                FailStatus::StackOverflow,
            ) && final(self)@ == old(self)@,
    {
        if self.0.len() >= STACK_CAPACITY {
            return Err(FailStatus::StackOverflow);
        }
        self.0.push(value);
        Ok(())
    }

    /// Exchanges the value at depth `nth` with the top value in place;
    /// depth 0 is the top itself, so `swap_with_top(0)` succeeds and changes
    /// nothing. Fails with `StackUnderflow`, leaving the stack unchanged,
    /// exactly when fewer than `nth + 1` values are held.
    pub fn swap_with_top(&mut self, nth: usize) -> (r: Result<(), FailStatus>)
        requires
            old(self).inv(),
        ensures
            final(self).inv(),
            r is Ok <==> old(self)@.len() > nth,
            old(self)@.len() > nth ==> r == Ok::<(), FailStatus>(()) && final(self)@
                == spec_swap_with_top(old(self)@, nth as int),
            r is Err ==> r == Err::<(), FailStatus>(FailStatus::StackUnderflow) && final(self)@
                == old(self)@,
    {
        if self.0.len() <= nth {
            return Err(FailStatus::StackUnderflow);
        }
        let len = self.0.len();
        let top_val = self.0[len - 1];
        let nth_val = self.0[len - 1 - nth];
        self.0.set(len - 1, nth_val);
        self.0.set(len - 1 - nth, top_val);
        Ok(())
    }

    /// Removes the top `N` values and returns them bottom-to-top: the value
    /// that was deepest of the removed ones comes first, the old top last.
    /// Fails with `StackUnderflow`, leaving the stack unchanged, exactly
    /// when fewer than `N` values are held.
    pub fn pop<const N: usize>(&mut self) -> (r: Result<[U256; N], FailStatus>)
        requires
            old(self).inv(),
        ensures
            final(self).inv(),
            r is Ok <==> old(self)@.len() >= N,
            r matches Ok(a) ==> a@ == old(self)@.skip(old(self)@.len() - N)
                && final(self)@ == old(self)@.take(old(self)@.len() - N),
            r is Err ==> r == Err::<[U256; N], FailStatus>(FailStatus::StackUnderflow)
                && final(self)@ == old(self)@,
    {
        if self.0.len() < N {
            return Err(FailStatus::StackUnderflow);
        }
        let new_len = self.0.len() - N;
        let mut array: [U256; N] = [U256::zero(); N];
        let mut i: usize = 0;
        while i < N
            invariant
                i <= N,
                N <= self.0@.len(),
                self.0@.len() <= STACK_CAPACITY,
                self.0@ == old(self)@,
                new_len == self.0@.len() - N,
                array@.len() == N,
                forall|j: int| 0 <= j < i ==> array@[j] == self.0@[new_len + j],
            decreases N - i,
        {
            let v = self.0[new_len + i];
            array[i] = v;
            i = i + 1;
        }
        self.0.truncate(new_len);
        proof {
            assert(array@ =~= old(self)@.skip(old(self)@.len() - N));
            assert(old(self)@.subrange(0, new_len as int) =~= old(self)@.take(
                old(self)@.len() - N,
            ));
        }
        Ok(array)
    }

    /// Returns the top value without removing it, or `None` on an empty
    /// stack. This is the one query that does not fail on empty: callers
    /// use it for optional inspection, not operand consumption.
    pub fn peek(&self) -> (r: Option<&U256>)
        ensures
            self@.len() == 0 ==> r is None,
            self@.len() > 0 ==> (r matches Some(v) && *v == self@.last()),
    {
        self.0.as_slice().last()
    }

    /// Returns the value at depth `nth` from the top without removing it;
    /// depth 0 is the top. Fails with `StackUnderflow` exactly when fewer
    /// than `nth + 1` values are held.
    pub fn nth(&self, nth: usize) -> (r: Result<U256, FailStatus>)
        ensures
            r is Ok <==> self@.len() > nth,
            self@.len() > nth ==> r == Ok::<U256, FailStatus>(self@[self@.len() - 1 - nth]),
            r is Err ==> r == Err::<U256, FailStatus>(FailStatus::StackUnderflow),
    {
        if self.0.len() <= nth {
            return Err(FailStatus::StackUnderflow);
        }
        Ok(self.0[self.0.len() - 1 - nth])
    }

    /// Succeeds exactly when the stack holds at least `min_len` values;
    /// otherwise reports `StackUnderflow`. This is the single underflow
    /// predicate every depth-indexed access reduces to.
    pub fn check_underflow(&self, min_len: usize) -> (r: Result<(), FailStatus>)
        ensures
            r is Ok <==> self@.len() >= min_len,
            r is Err ==> r == Err::<(), FailStatus>(FailStatus::StackUnderflow),
    {
        if self.0.len() < min_len {
            return Err(FailStatus::StackUnderflow);
        }
        Ok(())
    }
}

/// Pushing the values `vs` (in order) onto a stack holding `s` yields the
/// view `s + vs`; popping `vs.len()` values then returns exactly `vs`,
/// bottom-to-top, and leaves the stack holding `s` again.
pub proof fn lemma_push_then_pop_inverse(s: Seq<U256>, vs: Seq<U256>)
    ensures
        (s + vs).skip(s.len() as int) == vs,
        (s + vs).take(s.len() as int) == s,
{
    assert((s + vs).skip(s.len() as int) =~= vs);
    assert((s + vs).take(s.len() as int) =~= s);
}

/// Exchanging depth `k` with the top twice restores the original sequence,
/// and exchanging depth 0 (the top with itself) changes nothing.
pub proof fn lemma_swap_with_top_involution(s: Seq<U256>, k: int)
    requires
        0 <= k < s.len(),
    ensures
        spec_swap_with_top(spec_swap_with_top(s, k), k) == s,
        spec_swap_with_top(s, 0) == s,
{
    assert(spec_swap_with_top(spec_swap_with_top(s, k), k) =~= s);
    assert(spec_swap_with_top(s, 0) =~= s);
}

} // verus!
