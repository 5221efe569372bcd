use vstd::prelude::*;
use crate::envelope::{fall, is_fallen, is_rate, is_risen, rate_of, rise, EnvGenerator, Generator};
use crate::traits::{is_ge, is_le, is_one, is_zero, Sample};

verus! {

/// The state of an attack-release envelope.
#[derive(Clone, Copy, Debug, PartialEq, Eq)]
pub enum EnvState {
    /// The key is down and the value rises to one.
    Attack,
    /// The key is down and the value stays at one.
    Sustain,
    /// The key is up and the value falls to zero.
    Release,
    /// The key is up and the value is at rest.
    Idle,
}

/// An attack-release envelope generator.
///
/// While the key is down the value rises to one at the attack rate and
/// stays there; once the key is up it falls to zero at the release rate and
/// rests.
pub struct Ar<T> {
    /// The sample rate of the signals to be shaped.
    sample_rate: T,
    /// The state of the envelope.
    state: EnvState,
    /// The value of the envelope.
    value: T,
    /// The attack time, in seconds.
    attack_time: T,
    /// The release time, in seconds.
    release_time: T,
    /// The step per sample while the envelope rises.
    attack_rate: T,
    /// The step per sample while the envelope falls.
    release_rate: T,
}

/// What an `Ar` holds.
pub struct ArState<T> {
    pub sample_rate: T,
    pub state: EnvState,
    pub value: T,
    pub attack_time: T,
    pub release_time: T,
    pub attack_rate: T,
    pub release_rate: T,
}

impl<T> View for Ar<T> {
    type V = ArState<T>;

    closed spec fn view(&self) -> ArState<T> {
        ArState {
            sample_rate: self.sample_rate,
            state: self.state,
            value: self.value,
            attack_time: self.attack_time,
            release_time: self.release_time,
            attack_rate: self.attack_rate,
            release_rate: self.release_rate,
        }
    }
}

impl<T: Sample> ArState<T> {
    /// The envelope is idle and its value is zero.
    pub open spec fn is_at_rest(self) -> bool {
        self.state == EnvState::Idle && is_zero(self.value)
    }

    /// `after` may follow a tick in the attack state: the value rises by
    /// the attack rate, and the envelope goes on to sustain when it gets to
    /// one.
    pub open spec fn attacks(self, after: Self) -> bool {
        exists|one: T, reached: bool|
            {
                &&& is_one(one)
                &&& #[trigger] is_risen(self.value, self.attack_rate, one, after.value, reached)
                &&& after == (ArState {
                    value: after.value,
                    state: if reached {
                        EnvState::Sustain
                    } else {
                        EnvState::Attack
                    },
                    ..self
                })
            }
    }

    /// `after` may follow a tick in the release state: the value falls by
    /// the release rate, and the envelope goes to rest when it gets to zero.
    pub open spec fn releases(self, after: Self) -> bool {
        exists|zero: T, reached: bool|
            {
                &&& is_zero(zero)
                &&& #[trigger] is_fallen(self.value, self.release_rate, zero, after.value, reached)
                &&& after == (ArState {
                    value: after.value,
                    state: if reached {
                        EnvState::Idle
                    } else {
                        EnvState::Release
                    },
                    ..self
                })
            }
    }
}

/// A tick never takes the value past the bound of its state. In the attack
/// state the value ends at one or was found not to be at or above it; in
/// the release state it ends at zero or was found not to be at or below it.
/// In the other states it stays as it is.
pub proof fn lemma_tick_stops_at_bound<T: Sample>(before: ArState<T>, after: ArState<T>, out: T)
    requires
        Ar::<T>::ticks(before, after, out),
    ensures
        out == after.value,
        before.state == EnvState::Attack ==> is_one(after.value) || exists|one: T|
            is_one(one) && is_ge(after.value, one, false),
        before.state == EnvState::Release ==> is_zero(after.value) || exists|zero: T|
            is_zero(zero) && is_le(after.value, zero, false),
        before.state == EnvState::Sustain || before.state == EnvState::Idle ==> after.value
            == before.value,
{
}

/// An envelope that is idle stays idle when the key is let go, and keeps
/// all it holds.
pub proof fn lemma_idle_ignores_gate_off<T: Sample>(state: ArState<T>)
    requires
        state.state == EnvState::Idle,
    ensures
        Ar::<T>::gated_off(state) == state,
{
}

impl<T: Sample> Ar<T> {
    /// Creates an envelope at rest for signals at `sample_rate`. Its times
    /// and rates are zero until they are set.
    pub fn new(sample_rate: T) -> (envelope: Self)
        ensures
            envelope@.sample_rate == sample_rate,
            envelope@.is_at_rest(),
            is_zero(envelope@.attack_time),
            is_zero(envelope@.release_time),
            is_zero(envelope@.attack_rate),
            is_zero(envelope@.release_rate),
    {
        Ar {
            sample_rate: sample_rate,
            state: EnvState::Idle,
            value: T::zero(),
            attack_time: T::zero(),
            release_time: T::zero(),
            attack_rate: T::zero(),
            release_rate: T::zero(),
        }
    }

    /// Sets the sample rate and puts the envelope to rest. The rates stay
    /// as they are until the times are set again.
    pub fn set_sample_rate(&mut self, sample_rate: T)
        ensures
            final(self)@.is_at_rest(),
            final(self)@ == (ArState {
                sample_rate: sample_rate,
                state: EnvState::Idle,
                value: final(self)@.value,
                ..old(self)@
            }),
    {
        self.sample_rate = sample_rate;
        self.reset();
    }

    /// Sets the attack time, in seconds: the time the value takes from
    /// zero to one.
    pub fn set_attack(&mut self, attack_time: T)
        ensures
            exists|one: T|
                is_one(one) && #[trigger] is_rate(
                    one,
                    attack_time,
                    old(self)@.sample_rate,
                    final(self)@.attack_rate,
                ),
            final(self)@ == (ArState {
                attack_time: attack_time,
                attack_rate: final(self)@.attack_rate,
                ..old(self)@
            }),
    {
        self.attack_time = attack_time;
        self.attack_rate = rate_of(T::one(), attack_time, self.sample_rate);
    }

    /// Sets the release time, in seconds: the time the value takes from one
    /// to zero.
    pub fn set_release(&mut self, release_time: T)
        ensures
            exists|one: T|
                is_one(one) && #[trigger] is_rate(
                    one,
                    release_time,
                    old(self)@.sample_rate,
                    final(self)@.release_rate,
                ),
            final(self)@ == (ArState {
                release_time: release_time,
                release_rate: final(self)@.release_rate,
                ..old(self)@
            }),
    {
        self.release_time = release_time;
        self.release_rate = rate_of(T::one(), release_time, self.sample_rate);
    }
}

impl<T: Sample> Generator<T> for Ar<T> {
    open spec fn ticks(before: ArState<T>, after: ArState<T>, out: T) -> bool {
        &&& out == after.value
        &&& match before.state {
            EnvState::Idle | EnvState::Sustain => after == before,
            EnvState::Attack => before.attacks(after),
            EnvState::Release => before.releases(after),
        }
    }

    open spec fn resets(before: ArState<T>, after: ArState<T>) -> bool {
        &&& after.is_at_rest()
        &&& after == (ArState { state: EnvState::Idle, value: after.value, ..before })
    }

    open spec fn last_out_spec(state: ArState<T>) -> T {
        state.value
    }

    fn tick(&mut self) -> (out: T) {
        match self.state {
            EnvState::Idle | EnvState::Sustain => {},
            EnvState::Attack => {
                let one = T::one();
                let (value, reached) = rise(self.value, self.attack_rate, one);
                self.value = value;
                if reached {
                    self.state = EnvState::Sustain;
                }
                assert(is_risen(
                    old(self)@.value,
                    old(self)@.attack_rate,
                    one,
                    self@.value,
                    reached,
                ));
            },
            EnvState::Release => {
                let zero = T::zero();
                let (value, reached) = fall(self.value, self.release_rate, zero);
                self.value = value;
                if reached {
                    self.state = EnvState::Idle;
                }
                assert(is_fallen(
                    old(self)@.value,
                    old(self)@.release_rate,
                    zero,
                    self@.value,
                    reached,
                ));
            },
        }
        self.value
    }

    fn last_out(&self) -> (out: T) {
        self.value
    }

    fn reset(&mut self) {
        self.state = EnvState::Idle;
        self.value = T::zero();
    }
}

impl<T: Sample> EnvGenerator<T> for Ar<T> {
    /// The envelope attacks, from whatever state: a key that is pressed
    /// again starts the attack anew from the value there is.
    open spec fn gated_on(state: ArState<T>) -> ArState<T> {
        ArState { state: EnvState::Attack, ..state }
    }

    /// The envelope releases, unless it is idle.
    open spec fn gated_off(state: ArState<T>) -> ArState<T> {
        match state.state {
            EnvState::Idle => state,
            _ => ArState { state: EnvState::Release, ..state },
        }
    }

    fn gate_on(&mut self) {
        self.state = EnvState::Attack;
    }

    fn gate_off(&mut self) {
        match self.state {
            EnvState::Idle => {},
            _ => {
                self.state = EnvState::Release;
            },
        }
    }
}

} // verus!
