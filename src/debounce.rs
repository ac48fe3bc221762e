use vstd::prelude::*;

verus! {

/// What one observation does to a long-press detector whose counter is `counter`:
/// the new counter and whether the hold was confirmed by this very observation.
pub open spec fn step_spec(threshold: u32, counter: u32, active: bool) -> (u32, bool) {
    if !active {
        (threshold, false)
    } else if counter > 0 {
        ((counter - 1) as u32, counter == 1)
    } else {
        (counter, false)
    }
}

/// Counter of a detector that started idle and has seen `inputs`.
pub open spec fn counter_after(threshold: u32, inputs: Seq<bool>) -> u32
    decreases inputs.len(),
{
    if inputs.len() == 0 {
        threshold
    } else {
        step_spec(threshold, counter_after(threshold, inputs.drop_last()), inputs.last()).0
    }
}

/// Whether the observation at index `i` of `inputs` confirmed a hold, for a
/// detector that started idle.
pub open spec fn fires_at(threshold: u32, inputs: Seq<bool>, i: int) -> bool {
    step_spec(threshold, counter_after(threshold, inputs.take(i)), inputs[i]).1
}

/// Number of consecutive active observations that end at index `i`
/// (inclusive); zero where `inputs[i]` is inactive.
pub open spec fn active_run_ending_at(inputs: Seq<bool>, i: int) -> nat
    decreases i + 1,
{
    if i < 0 || !inputs[i] {
        0
    } else {
        1 + active_run_ending_at(inputs, i - 1)
    }
}

/// Long-press detector: counts down from `threshold` while the input is held
/// active, confirms once when the count reaches zero, and goes back to
/// `threshold` on any inactive observation.
pub struct Debouncer {
    pub threshold: u32,
    pub counter: u32,
}

impl Debouncer {
    pub open spec fn wf(&self) -> bool {
        0 < self.threshold && self.counter <= self.threshold
    }

    /// A detector in its idle state.
    pub fn new(threshold: u32) -> (d: Debouncer)
        requires
            threshold > 0,
        ensures
            d.wf(),
            d.threshold == threshold,
            d.counter == threshold,
    {
        Debouncer { threshold, counter: threshold }
    }

    /// Feeds one observation of the input level; returns whether the hold was
    /// confirmed by this observation.
    pub fn step(&mut self, active: bool) -> (fired: bool)
        requires
            old(self).wf(),
        ensures
            final(self).wf(),
            final(self).threshold == old(self).threshold,
            (final(self).counter, fired) == step_spec(old(self).threshold, old(self).counter, active),
    {
        if active && self.counter > 0 {
            self.counter = self.counter - 1;
            self.counter == 0
        } else {
            if !active {
                self.counter = self.threshold;
            }
            false
        }
    }

    /// Runs a fresh detector over a whole sequence of observations and reports,
    /// for each one, whether it confirmed a hold.
    pub fn confirmations(threshold: u32, inputs: &Vec<bool>) -> (r: Vec<bool>)
        requires
            threshold > 0,
        ensures
            r@.len() == inputs@.len(),
            forall|i: int| 0 <= i < inputs@.len() ==> r@[i] == fires_at(threshold, inputs@, i),
    {
        let mut d = Debouncer::new(threshold);
        let mut r: Vec<bool> = Vec::new();
        let mut i: usize = 0;
        while i < inputs.len()
            invariant
                i <= inputs@.len(),
                d.wf(),
                d.threshold == threshold,
                d.counter == counter_after(threshold, inputs@.take(i as int)),
                r@.len() == i,
                forall|k: int| 0 <= k < i ==> r@[k] == fires_at(threshold, inputs@, k),
            decreases inputs@.len() - i,
        {
            let fired = d.step(inputs[i]);
            proof {
                assert(inputs@.take(i + 1).drop_last() =~= inputs@.take(i as int));
            }
            r.push(fired);
            i = i + 1;
        }
        r
    }
}

/// After the observation at index `i`, the counter of a detector that started
/// idle sits below `threshold` by the length of the current active run, and
/// stops at zero.
pub proof fn lemma_counter_tracks_active_run(threshold: u32, inputs: Seq<bool>, i: int)
    requires
        0 < threshold,
        -1 <= i < inputs.len(),
    ensures
        counter_after(threshold, inputs.take(i + 1)) == threshold - (if active_run_ending_at(
            inputs,
            i,
        ) < threshold {
            active_run_ending_at(inputs, i) as int
        } else {
            threshold as int
        }),
        0 <= i ==> (fires_at(threshold, inputs, i) <==> active_run_ending_at(inputs, i)
            == threshold),
    decreases i + 1,
{
    if i >= 0 {
        lemma_counter_tracks_active_run(threshold, inputs, i - 1);
        assert(inputs.take(i + 1).drop_last() =~= inputs.take(i));
        assert(inputs.take(i + 1).last() == inputs[i]);
    } else {
        assert(inputs.take(0) =~= Seq::<bool>::empty());
    }
}

/// Inside a run of active observations that begins at `start`, the run ending
/// at `j` has length `j - start + 1`.
proof fn lemma_run_length_inside(inputs: Seq<bool>, start: int, len: int, j: int)
    requires
        0 <= start,
        start + len <= inputs.len(),
        start == 0 || !inputs[start - 1],
        forall|k: int| start <= k < start + len ==> inputs[k],
        start - 1 <= j < start + len,
    ensures
        active_run_ending_at(inputs, j) == j - start + 1,
    decreases j - start + 1,
{
    if j >= start {
        lemma_run_length_inside(inputs, start, len, j - 1);
    }
}

/// A press held for fewer than `threshold` consecutive observations never
/// confirms: no observation of that run fires.
pub proof fn lemma_short_press_never_fires(
    threshold: u32,
    inputs: Seq<bool>,
    start: int,
    len: int,
)
    requires
        0 < threshold,
        0 <= start,
        0 <= len < threshold,
        start + len <= inputs.len(),
        start == 0 || !inputs[start - 1],
        forall|k: int| start <= k < start + len ==> inputs[k],
    ensures
        forall|i: int| start <= i < start + len ==> !fires_at(threshold, inputs, i),
{
    assert forall|i: int| start <= i < start + len implies !fires_at(threshold, inputs, i) by {
        lemma_run_length_inside(inputs, start, len, i);
        lemma_counter_tracks_active_run(threshold, inputs, i);
    }
}

/// A press held for `threshold` or more consecutive observations confirms
/// exactly once: at its `threshold`-th observation, and at no other
/// observation of the run, however long the run goes on.
pub proof fn lemma_long_press_fires_once(threshold: u32, inputs: Seq<bool>, start: int, len: int)
    requires
        0 < threshold,
        0 <= start,
        threshold <= len,
        start + len <= inputs.len(),
        start == 0 || !inputs[start - 1],
        forall|k: int| start <= k < start + len ==> inputs[k],
    ensures
        forall|i: int|
            start <= i < start + len ==> (fires_at(threshold, inputs, i) <==> i == start
                + threshold - 1),
{
    assert forall|i: int| start <= i < start + len implies (fires_at(threshold, inputs, i) <==> i
        == start + threshold - 1) by {
        lemma_run_length_inside(inputs, start, len, i);
        lemma_counter_tracks_active_run(threshold, inputs, i);
    }
}

/// An inactive observation never confirms a hold.
pub proof fn lemma_release_never_fires(threshold: u32, inputs: Seq<bool>, i: int)
    requires
        0 <= i < inputs.len(),
        !inputs[i],
    ensures
        !fires_at(threshold, inputs, i),
{
}

} // verus!
