//! Delay lines: circular buffers that give back what was written a chosen
//! number of samples ago, and that can be read and written at any other
//! distance behind the write position.

pub mod linear_delay;
pub mod ring;

pub use self::linear_delay::LinearDelay;

use vstd::prelude::*;
use vstd::arithmetic::div_mod::lemma_mod_bound;
use crate::delay::ring::{
    grown,
    index_after,
    index_behind,
    lemma_index_after_then_behind,
    lemma_index_behind_distinct,
    lemma_index_behind_in_range,
    lemma_index_behind_then_after,
    lemma_index_behind_zero,
    step_back,
    step_forward,
    tap_position,
    zeroes,
};
use crate::traits::{is_sum, is_zero, Sample};

verus! {

/// The state of a delay line: the circular buffer, the index of the next
/// read, the index of the next write, and the delay in samples.
pub struct DelayState<T> {
    pub memory: Seq<T>,
    pub read_ptr: int,
    pub write_ptr: int,
    pub delay: int,
}

impl<T> DelayState<T> {
    /// The buffer is not empty, both pointers are indices into it, and the
    /// delay is at most the maximum delay.
    pub open spec fn wf(self) -> bool {
        &&& self.memory.len() >= 1
        &&& 0 <= self.read_ptr < self.memory.len()
        &&& 0 <= self.write_ptr < self.memory.len()
        &&& 0 <= self.delay <= self.max_delay()
    }

    /// The longest delay the buffer has room for: one less than its length.
    pub open spec fn max_delay(self) -> int {
        self.memory.len() - 1
    }

    /// The read pointer lies exactly `delay` cells behind the write pointer.
    ///
    /// This holds from `new` or `set_delay` on, through every `tick`, until
    /// the buffer grows.
    pub open spec fn is_aligned(self) -> bool {
        self.read_ptr == index_behind(self.write_ptr, self.delay, self.memory.len() as int)
    }

    /// The state after a request for a delay of `delay` samples: the delay
    /// is clipped to the maximum delay, and the read pointer is put that far
    /// behind the write pointer.
    pub open spec fn with_delay(self, delay: int) -> Self {
        let clipped = if delay > self.max_delay() {
            self.max_delay()
        } else {
            delay
        };
        DelayState {
            read_ptr: index_behind(self.write_ptr, clipped, self.memory.len() as int),
            delay: clipped,
            ..self
        }
    }

    /// The sample that the next `tick` gives back, unless the delay is zero.
    pub open spec fn next_out(self) -> T {
        self.memory[self.read_ptr]
    }

    /// The state after a tick on `sample`, and the output of that tick:
    /// the sample is written first, and the read comes second.
    pub open spec fn ticked(self, sample: T) -> (Self, T) {
        let memory = self.memory.update(self.write_ptr, sample);
        (
            DelayState {
                memory: memory,
                read_ptr: index_after(self.read_ptr, self.memory.len() as int),
                write_ptr: index_after(self.write_ptr, self.memory.len() as int),
                ..self
            },
            memory[self.read_ptr],
        )
    }

    /// The state after one tick on each sample of `inputs`, in their order.
    pub open spec fn ticked_all(self, inputs: Seq<T>) -> Self
        decreases inputs.len(),
    {
        if inputs.len() == 0 {
            self
        } else {
            self.ticked_all(inputs.drop_last()).ticked(inputs.last()).0
        }
    }

    /// The outputs of one tick on each sample of `inputs`, in their order.
    pub open spec fn outputs(self, inputs: Seq<T>) -> Seq<T>
        decreases inputs.len(),
    {
        if inputs.len() == 0 {
            Seq::empty()
        } else {
            self.outputs(inputs.drop_last()).push(
                self.ticked_all(inputs.drop_last()).ticked(inputs.last()).1,
            )
        }
    }

    /// The index of the tap `tap_delay`: that many cells behind the most
    /// recent write, which is one cell behind the write pointer.
    pub open spec fn tap_index(self, tap_delay: int) -> int {
        index_behind(self.write_ptr, tap_delay + 1, self.memory.len() as int)
    }

    /// The sample at the tap `tap_delay`.
    pub open spec fn tap_out(self, tap_delay: int) -> T {
        self.memory[self.tap_index(tap_delay)]
    }

    /// The state with `value` written at the tap `tap_delay`.
    pub open spec fn tapped_in(self, value: T, tap_delay: int) -> Self {
        DelayState { memory: self.memory.update(self.tap_index(tap_delay), value), ..self }
    }
}

/// What a tap holds after `value` was written there is `value`.
pub proof fn lemma_tap_round_trip<T>(state: DelayState<T>, value: T, tap_delay: int)
    requires
        state.wf(),
    ensures
        state.tapped_in(value, tap_delay).tap_out(tap_delay) == value,
{
    lemma_index_behind_in_range(state.write_ptr, tap_delay + 1, state.memory.len() as int);
}

/// A request for a delay leaves a delay line well formed, with the read
/// pointer `delay` cells behind the write pointer, and with the delay that
/// was asked for or, if that is too long, the longest there is room for.
pub proof fn lemma_with_delay_aligns<T>(state: DelayState<T>, delay: int)
    requires
        state.wf(),
        0 <= delay,
    ensures
        state.with_delay(delay).wf(),
        state.with_delay(delay).is_aligned(),
        state.with_delay(delay).delay == if delay > state.max_delay() {
            state.max_delay()
        } else {
            delay
        },
        state.with_delay(delay).memory == state.memory,
        state.with_delay(delay).write_ptr == state.write_ptr,
{
    lemma_index_behind_in_range(
        state.write_ptr,
        state.with_delay(delay).delay,
        state.memory.len() as int,
    );
}

/// A tick keeps a delay line well formed, and keeps the read pointer
/// `delay` cells behind the write pointer.
pub proof fn lemma_tick_keeps_shape<T>(state: DelayState<T>, sample: T)
    requires
        state.wf(),
    ensures
        state.ticked(sample).0.wf(),
        state.ticked(sample).0.memory.len() == state.memory.len(),
        state.ticked(sample).0.delay == state.delay,
        state.is_aligned() ==> state.ticked(sample).0.is_aligned(),
{
    let len = state.memory.len() as int;
    lemma_mod_bound(state.read_ptr + 1, len);
    lemma_mod_bound(state.write_ptr + 1, len);
    if state.is_aligned() {
        lemma_index_behind_then_after(state.write_ptr, state.delay, len);
        lemma_index_after_then_behind(state.write_ptr, state.delay, len);
    }
}

/// What a tick gives back is the sample that was written `delay` ticks
/// before: the sample that comes in, if the delay is zero, and what the tap
/// `delay - 1` held, if not.
pub proof fn lemma_tick_output<T>(state: DelayState<T>, sample: T)
    requires
        state.wf(),
        state.is_aligned(),
    ensures
        state.ticked(sample).1 == if state.delay == 0 {
            sample
        } else {
            state.tap_out(state.delay - 1)
        },
{
    let len = state.memory.len() as int;
    if state.delay == 0 {
        lemma_index_behind_zero(state.write_ptr, len);
    } else {
        lemma_index_behind_zero(state.write_ptr, len);
        lemma_index_behind_distinct(state.write_ptr, 0, state.delay, len);
    }
}

/// A tick moves every sample one tap further: the sample that comes in is
/// at the tap zero, and what was at the tap `tap_delay - 1` is at the tap
/// `tap_delay`, for every tap within the buffer.
pub proof fn lemma_tick_shifts_taps<T>(state: DelayState<T>, sample: T, tap_delay: int)
    requires
        state.wf(),
        0 <= tap_delay < state.memory.len(),
    ensures
        state.ticked(sample).0.tap_out(tap_delay) == if tap_delay == 0 {
            sample
        } else {
            state.tap_out(tap_delay - 1)
        },
{
    let len = state.memory.len() as int;
    lemma_index_after_then_behind(state.write_ptr, tap_delay + 1, len);
    lemma_index_behind_zero(state.write_ptr, len);
    if tap_delay > 0 {
        lemma_index_behind_distinct(state.write_ptr, 0, tap_delay, len);
        lemma_index_behind_in_range(state.write_ptr, tap_delay, len);
    }
}

/// After a run of ticks the taps hold the samples that came in, the latest
/// at the tap zero, and behind them what the line held before, moved on by
/// the length of the run.
pub proof fn lemma_taps_after_ticks<T>(state: DelayState<T>, inputs: Seq<T>)
    requires
        state.wf(),
    ensures
        state.ticked_all(inputs).wf(),
        state.ticked_all(inputs).memory.len() == state.memory.len(),
        state.ticked_all(inputs).delay == state.delay,
        state.is_aligned() ==> state.ticked_all(inputs).is_aligned(),
        forall|tap_delay: int|
            0 <= tap_delay < state.memory.len() ==> #[trigger] state.ticked_all(inputs).tap_out(
                tap_delay,
            ) == if tap_delay < inputs.len() {
                inputs[inputs.len() - 1 - tap_delay]
            } else {
                state.tap_out(tap_delay - inputs.len())
            },
    decreases inputs.len(),
{
    if inputs.len() > 0 {
        let earlier = inputs.drop_last();
        let before = state.ticked_all(earlier);
        lemma_taps_after_ticks(state, earlier);
        lemma_tick_keeps_shape(before, inputs.last());
        assert forall|tap_delay: int|
            0 <= tap_delay < state.memory.len() implies #[trigger] state.ticked_all(inputs).tap_out(
            tap_delay,
        ) == if tap_delay < inputs.len() {
            inputs[inputs.len() - 1 - tap_delay]
        } else {
            state.tap_out(tap_delay - inputs.len())
        } by {
            lemma_tick_shifts_taps(before, inputs.last(), tap_delay);
            if tap_delay > 0 {
                assert(before.tap_out(tap_delay - 1) == if tap_delay - 1 < earlier.len() {
                    earlier[earlier.len() - 1 - (tap_delay - 1)]
                } else {
                    state.tap_out(tap_delay - 1 - earlier.len())
                });
            }
        }
    }
}

/// A delay line delays by its delay: in a run of ticks, a tick gives back
/// the sample that came in `delay` ticks before it, and, while the run is
/// younger than that, what the line held that far behind its input.
pub proof fn lemma_delay_line_delays<T>(state: DelayState<T>, inputs: Seq<T>)
    requires
        state.wf(),
        state.is_aligned(),
    ensures
        state.outputs(inputs).len() == inputs.len(),
        forall|i: int|
            0 <= i < inputs.len() ==> #[trigger] state.outputs(inputs)[i] == if i >= state.delay {
                inputs[i - state.delay]
            } else {
                state.tap_out(state.delay - 1 - i)
            },
    decreases inputs.len(),
{
    if inputs.len() > 0 {
        let earlier = inputs.drop_last();
        let before = state.ticked_all(earlier);
        let last = inputs.len() - 1;
        lemma_delay_line_delays(state, earlier);
        lemma_taps_after_ticks(state, earlier);
        lemma_tick_output(before, inputs.last());
        if state.delay > 0 {
            assert(before.tap_out(state.delay - 1) == if state.delay - 1 < earlier.len() {
                earlier[earlier.len() - 1 - (state.delay - 1)]
            } else {
                state.tap_out(state.delay - 1 - earlier.len())
            });
        }
        assert forall|i: int| 0 <= i < inputs.len() implies #[trigger] state.outputs(inputs)[i]
            == if i >= state.delay {
            inputs[i - state.delay]
        } else {
            state.tap_out(state.delay - 1 - i)
        } by {
            if i < last {
                assert(state.outputs(inputs)[i] == state.outputs(earlier)[i]);
            }
        }
    }
}

/// A time-varying delay line with a delay of a whole number of samples.
pub struct Delay<T> {
    memory: Vec<T>,
    read_ptr: usize,
    write_ptr: usize,
    /// The delay in samples, at most the length of the buffer less one.
    delay: usize,
}

impl<T> View for Delay<T> {
    type V = DelayState<T>;

    closed spec fn view(&self) -> DelayState<T> {
        DelayState {
            memory: self.memory@,
            read_ptr: self.read_ptr as int,
            write_ptr: self.write_ptr as int,
            delay: self.delay as int,
        }
    }
}

impl<T> Delay<T> {
    #[verifier::type_invariant]
    spec fn well_formed(self) -> bool {
        self@.wf()
    }
}

impl<T: Sample> Delay<T> {
    /// Creates a delay line of `delay` samples with room for `max_delay`;
    /// a `delay` above `max_delay` is clipped to it. The buffer holds
    /// zeroes.
    pub fn new(delay: usize, max_delay: usize) -> (line: Self)
        requires
            max_delay < usize::MAX,
        ensures
            line@.memory.len() == max_delay + 1,
            forall|i: int| 0 <= i <= max_delay ==> is_zero(#[trigger] line@.memory[i]),
            line@.write_ptr == 0,
            line@.delay == if delay > max_delay {
                max_delay
            } else {
                delay
            },
            line@.is_aligned(),
            line@.wf(),
    {
        let mut delay_time = delay;
        if delay_time > max_delay {
            delay_time = max_delay;
        }
        let mut delay_line = Delay {
            memory: zeroes(max_delay + 1),
            read_ptr: 0,
            write_ptr: 0,
            delay: 0,
        };
        delay_line.set_delay(delay_time);
        delay_line
    }

    /// Sets the maximum delay, in samples. The buffer only grows: a `delay`
    /// within the room there is changes nothing, and new cells hold zeroes.
    /// The pointers stay where they are.
    pub fn set_max_delay(&mut self, delay: usize)
        requires
            delay < usize::MAX,
        ensures
            final(self)@.memory.len() == if delay < old(self)@.memory.len() {
                old(self)@.memory.len()
            } else {
                (delay + 1) as nat
            },
            final(self)@.memory.subrange(0, old(self)@.memory.len() as int) == old(self)@.memory,
            forall|i: int|
                old(self)@.memory.len() <= i < final(self)@.memory.len() ==> is_zero(
                    #[trigger] final(self)@.memory[i],
                ),
            final(self)@ == (DelayState { memory: final(self)@.memory, ..old(self)@ }),
    {
        proof {
            use_type_invariant(&*self);
        }
        if delay < self.memory.len() {
            return ;
        }
        self.memory = grown(&self.memory, delay + 1);
    }

    /// Returns the maximum delay, in samples.
    pub fn get_max_delay(&self) -> (max_delay: usize)
        ensures
            max_delay == self@.max_delay(),
            self@.wf(),
    {
        proof {
            use_type_invariant(self);
        }
        self.memory.len() - 1
    }

    /// Sets the delay, in samples; a `delay` above the maximum delay is
    /// clipped to it. The read pointer moves to `delay` cells behind the
    /// write pointer, so the new delay holds from the next tick on.
    pub fn set_delay(&mut self, delay: usize)
        ensures
            final(self)@ == old(self)@.with_delay(delay as int),
    {
        proof {
            use_type_invariant(&*self);
        }
        let mut delay_time = delay;
        let max_delay_samples = self.memory.len() - 1;
        if delay_time > max_delay_samples {
            delay_time = max_delay_samples;
        }
        self.read_ptr = step_back(self.write_ptr, delay_time, self.memory.len());
        self.delay = delay_time;
    }

    /// Returns the delay, in samples.
    pub fn get_delay(&self) -> (delay: usize)
        ensures
            delay == self@.delay,
            self@.wf(),
    {
        proof {
            use_type_invariant(self);
        }
        self.delay
    }

    /// Returns the sample at the read pointer: what the next `tick` gives
    /// back, unless the delay is zero.
    pub fn next_out(&self) -> (out: T)
        ensures
            out == self@.next_out(),
    {
        proof {
            use_type_invariant(self);
        }
        self.memory[self.read_ptr]
    }

    /// Writes `sample` into the line and returns the sample that is due.
    pub fn tick(&mut self, sample: T) -> (out: T)
        ensures
            (final(self)@, out) == old(self)@.ticked(sample),
    {
        proof {
            use_type_invariant(&*self);
        }
        let len = self.memory.len();
        self.memory[self.write_ptr] = sample;
        self.write_ptr = step_forward(self.write_ptr, len);
        let output = self.memory[self.read_ptr];
        self.read_ptr = step_forward(self.read_ptr, len);
        output
    }

    /// Returns the sample `tap_delay` cells behind the most recent write.
    pub fn tap_out(&self, tap_delay: usize) -> (out: T)
        ensures
            out == self@.tap_out(tap_delay as int),
    {
        proof {
            use_type_invariant(self);
        }
        let tap = tap_position(self.write_ptr, tap_delay, self.memory.len());
        self.memory[tap]
    }

    /// Overwrites the sample `tap_delay` cells behind the most recent write.
    pub fn tap_in(&mut self, value: T, tap_delay: usize)
        ensures
            final(self)@ == old(self)@.tapped_in(value, tap_delay as int),
    {
        proof {
            use_type_invariant(&*self);
        }
        let tap = tap_position(self.write_ptr, tap_delay, self.memory.len());
        self.memory[tap] = value;
    }

    /// Adds `value` to the sample `tap_delay` cells behind the most recent
    /// write, and returns the sum.
    pub fn add_to(&mut self, value: T, tap_delay: usize) -> (sum: T)
        ensures
            is_sum(old(self)@.tap_out(tap_delay as int), value, sum),
            final(self)@ == old(self)@.tapped_in(sum, tap_delay as int),
    {
        proof {
            use_type_invariant(&*self);
        }
        let tap = tap_position(self.write_ptr, tap_delay, self.memory.len());
        let sum = self.memory[tap].add(value);
        self.memory[tap] = sum;
        sum
    }

    /// Sets every sample in the buffer to zero. The pointers stay where
    /// they are.
    pub fn clear(&mut self)
        ensures
            final(self)@.memory.len() == old(self)@.memory.len(),
            forall|i: int|
                0 <= i < final(self)@.memory.len() ==> is_zero(#[trigger] final(self)@.memory[i]),
            final(self)@ == (DelayState { memory: final(self)@.memory, ..old(self)@ }),
    {
        proof {
            use_type_invariant(&*self);
        }
        let len = self.memory.len();
        let mut i: usize = 0;
        while i < len
            invariant
                self.memory@.len() == len,
                i <= len,
                forall|j: int| 0 <= j < i ==> is_zero(#[trigger] self.memory@[j]),
                self.read_ptr == old(self).read_ptr,
                self.write_ptr == old(self).write_ptr,
                self.delay == old(self).delay,
                self.read_ptr < len,
                self.write_ptr < len,
                self.delay < len,
            decreases len - i,
        {
            self.memory[i] = T::zero();
            i += 1;
        }
    }
}

} // verus!
