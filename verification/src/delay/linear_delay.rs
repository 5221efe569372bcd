use vstd::prelude::*;
use crate::delay::ring::{
    grown,
    index_after,
    index_behind,
    lemma_index_behind_in_range,
    step_forward,
    tap_position,
    zeroes,
};
use crate::traits::{
    is_difference,
    is_from_usize,
    is_gt,
    is_lt,
    is_one,
    is_product,
    is_sum,
    is_to_usize,
    is_zero,
    Processor,
    Sample,
    TappableDelayLine,
};

verus! {

/// A time-varying delay line whose delay may lie between two samples: what
/// it gives back is interpolated linearly between the two cells about the
/// place the delay points to.
pub struct LinearDelay<T> {
    memory: Vec<T>,
    output: T,
    read_ptr: usize,
    write_ptr: usize,
    /// The delay in samples, at most the length of the buffer less one.
    delay: T,
    do_next_out: bool,
    next_out: T,
    /// The weight of the cell after the read pointer.
    alpha: T,
    /// The weight of the cell at the read pointer, one minus `alpha`.
    om_alpha: T,
}

/// The state of a `LinearDelay`: the circular buffer, the last output, the
/// indices of the next read and the next write, the delay in samples, the
/// output that is due with the flag that says whether it has yet to be
/// computed, and the two interpolation weights.
pub struct LinearDelayState<T> {
    pub memory: Seq<T>,
    pub output: T,
    pub read_ptr: int,
    pub write_ptr: int,
    pub delay: T,
    pub do_next_out: bool,
    pub next_out: T,
    pub alpha: T,
    pub om_alpha: T,
}

impl<T> View for LinearDelay<T> {
    type V = LinearDelayState<T>;

    closed spec fn view(&self) -> LinearDelayState<T> {
        LinearDelayState {
            memory: self.memory@,
            output: self.output,
            read_ptr: self.read_ptr as int,
            write_ptr: self.write_ptr as int,
            delay: self.delay,
            do_next_out: self.do_next_out,
            next_out: self.next_out,
            alpha: self.alpha,
            om_alpha: self.om_alpha,
        }
    }
}

/// `capped` may be `delay` held at or below `max_delay`: `max_delay` as a
/// sample if `delay` is found above it, `delay` itself if not.
pub open spec fn is_capped<T: Sample>(delay: T, max_delay: usize, capped: T) -> bool {
    exists|ceiling: T, above: bool|
        {
            &&& is_from_usize(max_delay, ceiling)
            &&& is_gt(delay, ceiling, above)
            &&& capped == if above {
                ceiling
            } else {
                delay
            }
        }
}

/// `raised` may be `delay` held at or above zero: zero if `delay` is found
/// below it, `delay` itself if not.
pub open spec fn is_raised<T: Sample>(delay: T, raised: T) -> bool {
    exists|floor: T, below: bool|
        {
            &&& is_zero(floor)
            &&& is_lt(delay, floor, below)
            &&& raised == if below {
                floor
            } else {
                delay
            }
        }
}

/// `clipped` may be `delay` clipped to the range from zero to `max_delay`:
/// the ceiling is looked at first, the floor second.
pub open spec fn is_clipped<T: Sample>(delay: T, max_delay: usize, clipped: T) -> bool {
    exists|capped: T| #[trigger] is_capped(delay, max_delay, capped) && is_raised(capped, clipped)
}

/// `position` may be the place `delay` samples behind `write_ptr` in a
/// circular buffer of `len` cells, as a sample: `write_ptr - delay`, and
/// `len` more if that is found below zero.
pub open spec fn is_read_position<T: Sample>(
    write_ptr: usize,
    delay: T,
    len: usize,
    position: T,
) -> bool {
    exists|origin: T, behind: T, zero: T, negative: bool|
        {
            &&& is_from_usize(write_ptr, origin)
            &&& is_difference(origin, delay, behind)
            &&& is_zero(zero)
            &&& is_lt(behind, zero, negative)
            &&& if negative {
                exists|turn: T| is_from_usize(len, turn) && is_sum(behind, turn, position)
            } else {
                position == behind
            }
        }
}

/// `read_ptr` may be the integral part of `position`, taken as an index
/// into a buffer of `len` cells, where anything that is no index counts as
/// index zero; and `alpha` the rest, `position - read_ptr`.
pub open spec fn is_split<T: Sample>(position: T, len: usize, read_ptr: usize, alpha: T) -> bool {
    exists|whole: usize, base: T|
        {
            &&& is_to_usize(position, whole)
            &&& read_ptr == if whole >= len {
                0
            } else {
                whole
            }
            &&& is_from_usize(read_ptr, base)
            &&& is_difference(position, base, alpha)
        }
}

/// `om_alpha` may be `1 - alpha`.
pub open spec fn is_complement<T: Sample>(alpha: T, om_alpha: T) -> bool {
    exists|one: T| is_one(one) && is_difference(one, alpha, om_alpha)
}

impl<T: Sample> LinearDelayState<T> {
    /// The buffer is not empty and both pointers are indices into it.
    pub open spec fn wf(self) -> bool {
        &&& self.memory.len() >= 1
        &&& 0 <= self.read_ptr < self.memory.len()
        &&& 0 <= self.write_ptr < self.memory.len()
    }

    /// The longest delay the buffer has room for: one less than its length.
    pub open spec fn max_delay(self) -> int {
        self.memory.len() - 1
    }

    /// `after` may be the state after a request for a delay of `delay`
    /// samples: the delay is clipped to the range from zero to the maximum
    /// delay, its integral part puts the read pointer behind the write
    /// pointer, and its fraction sets the interpolation weights.
    pub open spec fn sets_delay(self, delay: T, after: Self) -> bool {
        &&& is_clipped(delay, self.max_delay() as usize, after.delay)
        &&& exists|position: T|
            {
                &&& #[trigger] is_read_position(
                    self.write_ptr as usize,
                    after.delay,
                    self.memory.len() as usize,
                    position,
                )
                &&& is_split(
                    position,
                    self.memory.len() as usize,
                    after.read_ptr as usize,
                    after.alpha,
                )
            }
        &&& is_complement(after.alpha, after.om_alpha)
        &&& 0 <= after.read_ptr < self.memory.len()
        &&& after == (LinearDelayState {
            read_ptr: after.read_ptr,
            delay: after.delay,
            alpha: after.alpha,
            om_alpha: after.om_alpha,
            ..self
        })
    }

    /// `out` may be the interpolation at the read pointer:
    /// `memory[read_ptr] * om_alpha + memory[read_ptr + 1] * alpha`, where
    /// the cell after the last one is the first.
    pub open spec fn is_interpolated(self, out: T) -> bool {
        exists|near: T, far: T|
            {
                &&& is_product(self.memory[self.read_ptr], self.om_alpha, near)
                &&& is_product(
                    self.memory[index_after(self.read_ptr, self.memory.len() as int)],
                    self.alpha,
                    far,
                )
                &&& is_sum(near, far, out)
            }
    }

    /// `out` may be the output that is due, and `after` the state once it
    /// has been asked for: where it has yet to be computed it is
    /// interpolated and kept, where not it is the one that was kept.
    pub open spec fn gives_next_out(self, after: Self, out: T) -> bool {
        if self.do_next_out {
            &&& self.is_interpolated(out)
            &&& after == (LinearDelayState { next_out: out, do_next_out: false, ..self })
        } else {
            out == self.next_out && after == self
        }
    }

    /// The state with `sample` written at the write pointer, and the write
    /// pointer moved on.
    pub open spec fn written(self, sample: T) -> Self {
        LinearDelayState {
            memory: self.memory.update(self.write_ptr, sample),
            write_ptr: index_after(self.write_ptr, self.memory.len() as int),
            ..self
        }
    }

    /// The index of the tap `tap_delay`: that many cells behind the most
    /// recent write, which is one cell behind the write pointer.
    pub open spec fn tap_index(self, tap_delay: int) -> int {
        index_behind(self.write_ptr, tap_delay + 1, self.memory.len() as int)
    }
}

/// What a tap holds after `value` was written there is `value`.
pub proof fn lemma_tap_round_trip<T: Sample>(state: LinearDelayState<T>, value: T, tap_delay: int)
    requires
        state.wf(),
    ensures
        LinearDelay::<T>::tap_out_spec(
            LinearDelay::<T>::tap_in_spec(state, value, tap_delay),
            tap_delay,
        ) == value,
{
    lemma_index_behind_in_range(state.write_ptr, tap_delay + 1, state.memory.len() as int);
}

/// Holds `delay` at or below `max_delay`.
pub fn cap<T: Sample>(delay: T, max_delay: usize) -> (capped: T)
    ensures
        is_capped(delay, max_delay, capped),
{
    let ceiling = T::from_usize(max_delay);
    if delay.gt(ceiling) {
        ceiling
    } else {
        delay
    }
}

/// Holds `delay` at or above zero.
pub fn raise<T: Sample>(delay: T) -> (raised: T)
    ensures
        is_raised(delay, raised),
{
    let floor = T::zero();
    if delay.lt(floor) {
        floor
    } else {
        delay
    }
}

/// Clips `delay` to the range from zero to `max_delay`.
pub fn clip<T: Sample>(delay: T, max_delay: usize) -> (clipped: T)
    ensures
        is_clipped(delay, max_delay, clipped),
{
    raise(cap(delay, max_delay))
}

/// Computes the place `delay` samples behind `write_ptr` in a circular
/// buffer of `len` cells.
///
/// One turn of the buffer is added where the difference is below zero. For
/// a delay that was clipped to the buffer that is enough to get at or above
/// zero.
pub fn read_position<T: Sample>(write_ptr: usize, delay: T, len: usize) -> (position: T)
    ensures
        is_read_position(write_ptr, delay, len, position),
{
    let behind = T::from_usize(write_ptr).sub(delay);
    if behind.lt(T::zero()) {
        behind.add(T::from_usize(len))
    } else {
        behind
    }
}

/// Splits `position` into an index into a buffer of `len` cells and the
/// fraction that is left.
pub fn split<T: Sample>(position: T, len: usize) -> (parts: (usize, T))
    requires
        len > 0,
    ensures
        is_split(position, len, parts.0, parts.1),
        parts.0 < len,
{
    let whole = position.to_usize();
    let read_ptr = if whole >= len {
        0
    } else {
        whole
    };
    (read_ptr, position.sub(T::from_usize(read_ptr)))
}

/// Computes `1 - alpha`.
pub fn complement<T: Sample>(alpha: T) -> (om_alpha: T)
    ensures
        is_complement(alpha, om_alpha),
{
    T::one().sub(alpha)
}

impl<T> LinearDelay<T> {
    #[verifier::type_invariant]
    spec fn well_formed(self) -> bool {
        &&& self.memory@.len() >= 1
        &&& self.read_ptr < self.memory@.len()
        &&& self.write_ptr < self.memory@.len()
    }
}

impl<T: Sample> LinearDelay<T> {
    /// Creates a delay line of `delay` samples with room for `max_delay`;
    /// the `delay` is clipped to the range from zero to `max_delay`. The
    /// buffer holds zeroes.
    pub fn new(delay: T, max_delay: usize) -> (line: Self)
        requires
            max_delay < usize::MAX,
        ensures
            line@.wf(),
            line@.memory.len() == max_delay + 1,
            forall|i: int| 0 <= i <= max_delay ==> is_zero(#[trigger] line@.memory[i]),
            is_zero(line@.output),
            is_zero(line@.next_out),
            line@.write_ptr == 0,
            line@.do_next_out,
            exists|clipped: T, blank: LinearDelayState<T>|
                {
                    &&& is_clipped(delay, max_delay, clipped)
                    &&& blank.write_ptr == 0
                    &&& blank.memory == line@.memory
                    &&& #[trigger] blank.sets_delay(clipped, line@)
                },
    {
        let delay_time = clip(delay, max_delay);
        let mut delay_line = LinearDelay {
            memory: zeroes(max_delay + 1),
            output: T::zero(),
            read_ptr: 0,
            write_ptr: 0,
            delay: T::zero(),
            do_next_out: true,
            next_out: T::zero(),
            alpha: T::zero(),
            om_alpha: T::zero(),
        };
        let ghost blank = delay_line@;
        delay_line.set_delay(delay_time);
        assert(blank.sets_delay(delay_time, delay_line@));
        delay_line
    }

    /// Sets the maximum delay, in samples. The buffer only grows: a `delay`
    /// within the room there is changes nothing, and new cells hold zeroes.
    /// The pointers stay where they are.
    pub fn set_max_delay(&mut self, delay: usize)
        requires
            delay < usize::MAX,
        ensures
            final(self)@.memory.len() == if delay < old(self)@.memory.len() {
                old(self)@.memory.len()
            } else {
                (delay + 1) as nat
            },
            final(self)@.memory.subrange(0, old(self)@.memory.len() as int) == old(self)@.memory,
            forall|i: int|
                old(self)@.memory.len() <= i < final(self)@.memory.len() ==> is_zero(
                    #[trigger] final(self)@.memory[i],
                ),
            final(self)@ == (LinearDelayState { memory: final(self)@.memory, ..old(self)@ }),
    {
        proof {
            use_type_invariant(&*self);
        }
        if delay < self.memory.len() {
            return ;
        }
        self.memory = grown(&self.memory, delay + 1);
    }

    /// Returns the maximum delay, in samples.
    pub fn get_max_delay(&self) -> (max_delay: usize)
        ensures
            max_delay == self@.max_delay(),
            self@.wf(),
    {
        proof {
            use_type_invariant(self);
        }
        self.memory.len() - 1
    }

    /// Sets the delay, in samples; the `delay` is clipped to the range from
    /// zero to the maximum delay. The read pointer and the interpolation
    /// weights follow from the write pointer as it stands, so the new delay
    /// holds from the next tick on.
    pub fn set_delay(&mut self, delay: T)
        ensures
            old(self)@.sets_delay(delay, final(self)@),
    {
        proof {
            use_type_invariant(&*self);
        }
        let len = self.memory.len();
        let delay_time = clip(delay, len - 1);
        let position = read_position(self.write_ptr, delay_time, len);
        self.delay = delay_time;
        let (read_ptr, alpha) = split(position, len);
        self.read_ptr = read_ptr;
        self.alpha = alpha;
        self.om_alpha = complement(alpha);
        proof {
            let before = old(self)@;
            assert(before.write_ptr as usize == self.write_ptr);
            assert(before.memory.len() as usize == len);
            assert(self@.read_ptr as usize == read_ptr);
            assert(is_read_position(
                before.write_ptr as usize,
                self@.delay,
                before.memory.len() as usize,
                position,
            ));
        }
    }

    /// Returns the delay, in samples.
    pub fn get_delay(&self) -> (delay: T)
        ensures
            delay == self@.delay,
    {
        self.delay
    }

    /// Returns the value that the next call of `tick` will give back. It is
    /// computed on the first demand after a tick and kept until the next.
    pub fn next_out(&mut self) -> (out: T)
        ensures
            old(self)@.gives_next_out(final(self)@, out),
    {
        proof {
            use_type_invariant(&*self);
        }
        if self.do_next_out {
            let near = self.memory[self.read_ptr].mul(self.om_alpha);
            let after = step_forward(self.read_ptr, self.memory.len());
            self.next_out = near.add(self.memory[after].mul(self.alpha));
            self.do_next_out = false;
        }
        self.next_out
    }
}

impl<T: Sample> Processor<T> for LinearDelay<T> {
    /// The sample is written first; the output that is due then is given
    /// back and kept as the last output; the read pointer moves on, and the
    /// next output has yet to be computed.
    open spec fn processes(
        before: LinearDelayState<T>,
        sample: T,
        after: LinearDelayState<T>,
        out: T,
    ) -> bool {
        exists|asked: LinearDelayState<T>|
            {
                &&& #[trigger] before.written(sample).gives_next_out(asked, out)
                &&& after == (LinearDelayState {
                    output: out,
                    do_next_out: true,
                    read_ptr: index_after(asked.read_ptr, asked.memory.len() as int),
                    ..asked
                })
            }
    }

    /// The buffer and the last output are zeroed. The pointers, the delay
    /// and an output that was kept stay as they are.
    open spec fn clears(before: LinearDelayState<T>, after: LinearDelayState<T>) -> bool {
        &&& after.memory.len() == before.memory.len()
        &&& forall|i: int| 0 <= i < after.memory.len() ==> is_zero(#[trigger] after.memory[i])
        &&& is_zero(after.output)
        &&& after == (LinearDelayState { memory: after.memory, output: after.output, ..before })
    }

    open spec fn last_out_spec(state: LinearDelayState<T>) -> T {
        state.output
    }

    fn process(&mut self, sample: T) -> (out: T) {
        proof {
            use_type_invariant(&*self);
        }
        let len = self.memory.len();
        self.memory[self.write_ptr] = sample;
        self.write_ptr = step_forward(self.write_ptr, len);
        let ghost written = self@;
        let output = self.next_out();
        let ghost asked = self@;
        proof {
            use_type_invariant(&*self);
        }
        self.output = output;
        self.do_next_out = true;
        self.read_ptr = step_forward(self.read_ptr, len);
        assert(written == old(self)@.written(sample));
        assert(old(self)@.written(sample).gives_next_out(asked, output));
        output
    }

    fn clear(&mut self) {
        proof {
            use_type_invariant(&*self);
        }
        let len = self.memory.len();
        let mut i: usize = 0;
        while i < len
            invariant
                self.memory@.len() == len,
                i <= len,
                forall|j: int| 0 <= j < i ==> is_zero(#[trigger] self.memory@[j]),
                self@ == (LinearDelayState { memory: self.memory@, ..old(self)@ }),
                self.read_ptr < len,
                self.write_ptr < len,
            decreases len - i,
        {
            self.memory[i] = T::zero();
            i += 1;
        }
        self.output = T::zero();
    }

    fn last_out(&self) -> (out: T) {
        self.output
    }
}

impl<T: Sample> TappableDelayLine<T> for LinearDelay<T> {
    open spec fn tap_out_spec(state: LinearDelayState<T>, tap_delay: int) -> T {
        state.memory[state.tap_index(tap_delay)]
    }

    open spec fn tap_in_spec(
        state: LinearDelayState<T>,
        value: T,
        tap_delay: int,
    ) -> LinearDelayState<T> {
        LinearDelayState { memory: state.memory.update(state.tap_index(tap_delay), value), ..state }
    }

    fn tap_out(&self, tap_delay: usize) -> (out: T) {
        proof {
            use_type_invariant(self);
        }
        let tap = tap_position(self.write_ptr, tap_delay, self.memory.len());
        self.memory[tap]
    }

    fn tap_in(&mut self, value: T, tap_delay: usize) {
        proof {
            use_type_invariant(&*self);
        }
        let tap = tap_position(self.write_ptr, tap_delay, self.memory.len());
        self.memory[tap] = value;
    }

    fn add_to(&mut self, value: T, tap_delay: usize) -> (sum: T) {
        proof {
            use_type_invariant(&*self);
        }
        let tap = tap_position(self.write_ptr, tap_delay, self.memory.len());
        let sum = self.memory[tap].add(value);
        self.memory[tap] = sum;
        sum
    }
}

} // verus!
