//! A bounded counter that wraps around at both ends of its range.

use vstd::prelude::*;

verus! {

/// The mathematical value of a [`Counter`]: a position inside a range.
pub struct CounterModel {
    pub count: nat,
    pub min: nat,
    pub max: nat,
}

/// One step applied to a counter.
pub enum CounterStep {
    Increment,
    Decrement,
}

impl CounterModel {
    /// The position lies inside the range, bounds included.
    pub open spec fn in_range(self) -> bool {
        self.min <= self.count <= self.max
    }

    /// The number of positions in the range.
    pub open spec fn span(self) -> nat {
        (self.max - self.min + 1) as nat
    }

    /// One step up; from the upper bound the position returns to the lower bound.
    pub open spec fn incremented(self) -> CounterModel {
        CounterModel {
            count: if self.count >= self.max {
                self.min
            } else {
                self.count + 1
            },
            ..self
        }
    }

    /// One step down; from the lower bound the position returns to the upper bound.
    pub open spec fn decremented(self) -> CounterModel {
        CounterModel {
            count: if self.count <= self.min {
                self.max
            } else {
                (self.count - 1) as nat
            },
            ..self
        }
    }

    /// The effect of a single step.
    pub open spec fn stepped(self, step: CounterStep) -> CounterModel {
        match step {
            CounterStep::Increment => self.incremented(),
            CounterStep::Decrement => self.decremented(),
        }
    }

    /// The effect of a sequence of steps, applied first to last.
    pub open spec fn stepped_all(self, steps: Seq<CounterStep>) -> CounterModel
        decreases steps.len(),
    {
        if steps.len() == 0 {
            self
        } else {
            self.stepped_all(steps.drop_last()).stepped(steps.last())
        }
    }

    /// The effect of `n` steps up.
    pub open spec fn incremented_by(self, n: nat) -> CounterModel
        decreases n,
    {
        if n == 0 {
            self
        } else {
            self.incremented_by((n - 1) as nat).incremented()
        }
    }

    /// The effect of `n` steps down.
    pub open spec fn decremented_by(self, n: nat) -> CounterModel
        decreases n,
    {
        if n == 0 {
            self
        } else {
            self.decremented_by((n - 1) as nat).decremented()
        }
    }
}

/// A bounded integer in `[min, max]` with wraparound increment and decrement.
pub struct Counter {
    count: usize,
    min: usize,
    max: usize,
}

impl View for Counter {
    type V = CounterModel;

    closed spec fn view(&self) -> CounterModel {
        CounterModel { count: self.count as nat, min: self.min as nat, max: self.max as nat }
    }
}

impl Counter {
    #[verifier::type_invariant]
    spec fn well_formed(self) -> bool {
        self.min <= self.count <= self.max
    }

    /// A counter over `[min, max]`, standing at `min`.
    pub fn new(min: usize, max: usize) -> (counter: Self)
        requires
            min <= max,
        ensures
            counter@ == (CounterModel { count: min as nat, min: min as nat, max: max as nat }),
            counter@.in_range(),
    {
        Counter { count: min, min, max }
    }

    /// The current position.
    pub fn count(&self) -> (count: usize)
        ensures
            count == self@.count,
            self@.in_range(),
    {
        proof {
            use_type_invariant(self);
        }
        self.count
    }

    /// Steps up by one, wrapping from `max` to `min`.
    pub fn increment(&mut self)
        ensures
            final(self)@ == old(self)@.incremented(),
            final(self)@.in_range(),
        no_unwind
    {
        proof {
            use_type_invariant(&*self);
        }
        if self.count >= self.max {
            self.count = self.min;
        } else {
            self.count = self.count + 1;
        }
    }

    /// Steps down by one, wrapping from `min` to `max`.
    pub fn decrement(&mut self)
        ensures
            final(self)@ == old(self)@.decremented(),
            final(self)@.in_range(),
        no_unwind
    {
        proof {
            use_type_invariant(&*self);
        }
        if self.count <= self.min {
            self.count = self.max;
        } else {
            self.count = self.count - 1;
        }
    }
}

/// Any sequence of steps keeps the bounds as they were and the position inside them.
pub proof fn lemma_steps_stay_in_range(start: CounterModel, steps: Seq<CounterStep>)
    requires
        start.in_range(),
    ensures
        start.stepped_all(steps).in_range(),
        start.stepped_all(steps).min == start.min,
        start.stepped_all(steps).max == start.max,
    decreases steps.len(),
{
    if steps.len() > 0 {
        lemma_steps_stay_in_range(start, steps.drop_last());
    }
}

/// A step up from the upper bound lands on the lower bound, and a step down from the lower
/// bound lands on the upper bound.
pub proof fn lemma_wraps_at_bounds(m: CounterModel)
    requires
        m.in_range(),
    ensures
        m.count == m.max ==> m.incremented().count == m.min,
        m.count == m.min ==> m.decremented().count == m.max,
        m.count < m.max ==> m.incremented().count == m.count + 1,
        m.count > m.min ==> m.decremented().count == m.count - 1,
{
}

/// A step up followed by a step down, or a step down followed by a step up, changes nothing.
pub proof fn lemma_steps_are_inverse(m: CounterModel)
    requires
        m.in_range(),
    ensures
        m.incremented().decremented() == m,
        m.decremented().incremented() == m,
{
}

/// Stepping up `a + b` times is stepping up `a` times and then `b` times.
pub proof fn lemma_incremented_by_sum(m: CounterModel, a: nat, b: nat)
    ensures
        m.incremented_by(a + b) == m.incremented_by(a).incremented_by(b),
    decreases b,
{
    if b > 0 {
        lemma_incremented_by_sum(m, a, (b - 1) as nat);
    }
}

/// Stepping down `a + b` times is stepping down `a` times and then `b` times.
pub proof fn lemma_decremented_by_sum(m: CounterModel, a: nat, b: nat)
    ensures
        m.decremented_by(a + b) == m.decremented_by(a).decremented_by(b),
    decreases b,
{
    if b > 0 {
        lemma_decremented_by_sum(m, a, (b - 1) as nat);
    }
}

/// As long as the upper bound is not passed, `n` steps up add `n` to the position.
pub proof fn lemma_incremented_by_without_wrap(m: CounterModel, n: nat)
    requires
        m.in_range(),
        m.count + n <= m.max,
    ensures
        m.incremented_by(n) == (CounterModel { count: m.count + n, ..m }),
    decreases n,
{
    if n > 0 {
        lemma_incremented_by_without_wrap(m, (n - 1) as nat);
    }
}

/// As long as the lower bound is not passed, `n` steps down subtract `n` from the position.
pub proof fn lemma_decremented_by_without_wrap(m: CounterModel, n: nat)
    requires
        m.in_range(),
        m.min + n <= m.count,
    ensures
        m.decremented_by(n) == (CounterModel { count: (m.count - n) as nat, ..m }),
    decreases n,
{
    if n > 0 {
        lemma_decremented_by_without_wrap(m, (n - 1) as nat);
    }
}

/// Stepping up once for every position of the range leads back to where the counter stood.
pub proof fn lemma_increment_cycle(m: CounterModel)
    requires
        m.in_range(),
    ensures
        m.incremented_by(m.span()) == m,
{
    let to_top = (m.max - m.count) as nat;
    let from_bottom = (m.count - m.min) as nat;
    let at_top = m.incremented_by(to_top);
    lemma_incremented_by_without_wrap(m, to_top);
    let at_bottom = at_top.incremented();
    lemma_incremented_by_without_wrap(at_bottom, from_bottom);
    lemma_incremented_by_sum(m, to_top + 1, from_bottom);
}

/// Stepping down once for every position of the range leads back to where the counter stood.
pub proof fn lemma_decrement_cycle(m: CounterModel)
    requires
        m.in_range(),
    ensures
        m.decremented_by(m.span()) == m,
{
    let to_bottom = (m.count - m.min) as nat;
    let from_top = (m.max - m.count) as nat;
    let at_bottom = m.decremented_by(to_bottom);
    lemma_decremented_by_without_wrap(m, to_bottom);
    let at_top = at_bottom.decremented();
    lemma_decremented_by_without_wrap(at_top, from_top);
    lemma_decremented_by_sum(m, to_bottom + 1, from_top);
}

} // verus!
