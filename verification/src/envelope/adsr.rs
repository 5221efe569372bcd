use vstd::prelude::*;
use crate::envelope::{
    approach,
    fall,
    is_approached,
    is_fallen,
    is_rate,
    is_risen,
    rate_of,
    rise,
    EnvGenerator,
    Generator,
};
use crate::traits::{is_difference, is_ge, is_le, is_one, is_zero, Sample};

verus! {

/// The state of an attack-decay-sustain-release envelope.
#[derive(Clone, Copy, Debug, PartialEq, Eq)]
pub enum EnvState {
    /// The key is down and the value rises to the attack target.
    Attack,
    /// The key is down and the value moves to the sustain level.
    Decay,
    /// The key is down and the value stays at the sustain level.
    Sustain,
    /// The key is up and the value falls to zero.
    Release,
    /// The key is up and the value is at rest.
    Idle,
}

/// An attack-decay-sustain-release envelope generator.
///
/// While the key is down the value rises to the attack target at the
/// attack rate, moves on to the sustain level at the decay rate and stays
/// there; once the key is up it falls to zero at the release rate and
/// rests.
pub struct Adsr<T> {
    sample_rate: T,
    state: EnvState,
    target: T,
    value: T,
    attack_time: T,
    decay_time: T,
    sustain_level: T,
    release_time: T,
    /// The step per sample in the attack state.
    attack_rate: T,
    /// The step per sample in the decay state.
    decay_rate: T,
    /// The step per sample in the release state.
    release_rate: T,
}

/// What an `Adsr` holds.
pub struct AdsrState<T> {
    pub sample_rate: T,
    pub state: EnvState,
    pub target: T,
    pub value: T,
    pub attack_time: T,
    pub decay_time: T,
    pub sustain_level: T,
    pub release_time: T,
    pub attack_rate: T,
    pub decay_rate: T,
    pub release_rate: T,
}

impl<T> View for Adsr<T> {
    type V = AdsrState<T>;

    closed spec fn view(&self) -> AdsrState<T> {
        AdsrState {
            sample_rate: self.sample_rate,
            state: self.state,
            target: self.target,
            value: self.value,
            attack_time: self.attack_time,
            decay_time: self.decay_time,
            sustain_level: self.sustain_level,
            release_time: self.release_time,
            attack_rate: self.attack_rate,
            decay_rate: self.decay_rate,
            release_rate: self.release_rate,
        }
    }
}

impl<T: Sample> AdsrState<T> {
    /// The envelope is idle and its value is zero.
    pub open spec fn is_at_rest(self) -> bool {
        self.state == EnvState::Idle && is_zero(self.value)
    }

    /// `after` may be the state once the attack time is `attack_time`: the
    /// attack rate covers a span of one in that time.
    pub open spec fn sets_attack(self, attack_time: T, after: Self) -> bool {
        &&& exists|one: T|
            is_one(one) && #[trigger] is_rate(one, attack_time, self.sample_rate, after.attack_rate)
        &&& after == (AdsrState {
            attack_time: attack_time,
            attack_rate: after.attack_rate,
            ..self
        })
    }

    /// `after` may be the state once the decay time is `decay_time`: the
    /// decay rate covers the span from one to the sustain level in that
    /// time.
    pub open spec fn sets_decay(self, decay_time: T, after: Self) -> bool {
        &&& exists|span: T|
            {
                &&& exists|one: T| is_one(one) && is_difference(one, self.sustain_level, span)
                &&& #[trigger] is_rate(span, decay_time, self.sample_rate, after.decay_rate)
            }
        &&& after == (AdsrState { decay_time: decay_time, decay_rate: after.decay_rate, ..self })
    }

    /// `after` may be the state once the release time is `release_time`:
    /// the release rate covers the span from the sustain level to zero in
    /// that time.
    pub open spec fn sets_release(self, release_time: T, after: Self) -> bool {
        &&& is_rate(self.sustain_level, release_time, self.sample_rate, after.release_rate)
        &&& after == (AdsrState {
            release_time: release_time,
            release_rate: after.release_rate,
            ..self
        })
    }

    /// `after` may be the state once the sample rate is `sample_rate`: the
    /// attack rate, the decay rate and the release rate are derived anew,
    /// in that order, from the times there are.
    pub open spec fn sets_sample_rate(self, sample_rate: T, after: Self) -> bool {
        exists|attack_set: Self, decay_set: Self|
            {
                &&& #[trigger] (AdsrState { sample_rate: sample_rate, ..self }).sets_attack(
                    self.attack_time,
                    attack_set,
                )
                &&& #[trigger] attack_set.sets_decay(self.decay_time, decay_set)
                &&& decay_set.sets_release(self.release_time, after)
            }
    }

    /// `after` may follow a tick in the attack state: the value rises by
    /// the attack rate; when it gets to the target, the envelope goes on to
    /// decay and the sustain level becomes the target.
    pub open spec fn attacks(self, after: Self) -> bool {
        exists|reached: bool|
            {
                &&& #[trigger] is_risen(
                    self.value,
                    self.attack_rate,
                    self.target,
                    after.value,
                    reached,
                )
                &&& after == if reached {
                    AdsrState {
                        value: after.value,
                        target: self.sustain_level,
                        state: EnvState::Decay,
                        ..self
                    }
                } else {
                    AdsrState { value: after.value, ..self }
                }
            }
    }

    /// `after` may follow a tick in the decay state: the value moves by the
    /// decay rate towards the sustain level, downwards if it is found above
    /// it and upwards if not; when it gets there, the envelope goes on to
    /// sustain.
    pub open spec fn decays(self, after: Self) -> bool {
        exists|reached: bool|
            {
                &&& #[trigger] is_approached(
                    self.value,
                    self.decay_rate,
                    self.sustain_level,
                    after.value,
                    reached,
                )
                &&& after == (AdsrState {
                    value: after.value,
                    state: if reached {
                        EnvState::Sustain
                    } else {
                        EnvState::Decay
                    },
                    ..self
                })
            }
    }

    /// `after` may follow a tick in the release state: the value falls by
    /// the release rate, and the envelope goes to rest when it gets to zero.
    pub open spec fn releases(self, after: Self) -> bool {
        exists|zero: T, reached: bool|
            {
                &&& is_zero(zero)
                &&& #[trigger] is_fallen(self.value, self.release_rate, zero, after.value, reached)
                &&& after == (AdsrState {
                    value: after.value,
                    state: if reached {
                        EnvState::Idle
                    } else {
                        EnvState::Release
                    },
                    ..self
                })
            }
    }
}

/// A tick never takes the value past the bound of its state. In the attack
/// state the value ends at the target or was found not to be at or above
/// it; on the way to the sustain level it ends at that level or was found
/// not to have got there; in the release state it ends at zero or was found
/// not to be at or below it. In the other states it stays as it is.
pub proof fn lemma_tick_stops_at_bound<T: Sample>(
    before: AdsrState<T>,
    after: AdsrState<T>,
    out: T,
)
    requires
        Adsr::<T>::ticks(before, after, out),
    ensures
        out == after.value,
        before.state == EnvState::Attack ==> after.value == before.target || is_ge(
            after.value,
            before.target,
            false,
        ),
        before.state == EnvState::Decay ==> after.value == before.sustain_level || is_ge(
            after.value,
            before.sustain_level,
            false,
        ) || is_le(after.value, before.sustain_level, false),
        before.state == EnvState::Release ==> is_zero(after.value) || exists|zero: T|
            is_zero(zero) && is_le(after.value, zero, false),
        before.state == EnvState::Sustain || before.state == EnvState::Idle ==> after.value
            == before.value,
{
}

/// An envelope that is idle stays idle when the key is let go, and keeps
/// all it holds.
pub proof fn lemma_idle_ignores_gate_off<T: Sample>(state: AdsrState<T>)
    requires
        state.state == EnvState::Idle,
    ensures
        Adsr::<T>::gated_off(state) == state,
{
}

impl<T: Sample> Adsr<T> {
    /// Creates an envelope at rest for signals at `sample_rate`. Its
    /// sustain level is one; its target, its times and its rates are zero
    /// until they are set.
    pub fn new(sample_rate: T) -> (envelope: Self)
        ensures
            envelope@.sample_rate == sample_rate,
            envelope@.is_at_rest(),
            is_zero(envelope@.target),
            is_one(envelope@.sustain_level),
            is_zero(envelope@.attack_time),
            is_zero(envelope@.decay_time),
            is_zero(envelope@.release_time),
            is_zero(envelope@.attack_rate),
            is_zero(envelope@.decay_rate),
            is_zero(envelope@.release_rate),
    {
        Adsr {
            sample_rate: sample_rate,
            state: EnvState::Idle,
            target: T::zero(),
            value: T::zero(),
            attack_time: T::zero(),
            decay_time: T::zero(),
            sustain_level: T::one(),
            release_time: T::zero(),
            attack_rate: T::zero(),
            decay_rate: T::zero(),
            release_rate: T::zero(),
        }
    }

    /// Sets the sample rate and derives the three rates anew from the times
    /// there are.
    pub fn set_sample_rate(&mut self, sample_rate: T)
        ensures
            old(self)@.sets_sample_rate(sample_rate, final(self)@),
    {
        self.sample_rate = sample_rate;
        let ghost start = self@;
        self.set_attack(self.attack_time);
        let ghost attack_set = self@;
        self.set_decay(self.decay_time);
        let ghost decay_set = self@;
        self.set_release(self.release_time);
        assert(start.sets_attack(start.attack_time, attack_set));
        assert(attack_set.sets_decay(start.decay_time, decay_set));
    }

    /// Sets the attack time, in seconds.
    pub fn set_attack(&mut self, attack_time: T)
        ensures
            old(self)@.sets_attack(attack_time, final(self)@),
    {
        self.attack_time = attack_time;
        self.attack_rate = rate_of(T::one(), attack_time, self.sample_rate);
    }

    /// Sets the decay time, in seconds.
    pub fn set_decay(&mut self, decay_time: T)
        ensures
            old(self)@.sets_decay(decay_time, final(self)@),
    {
        self.decay_time = decay_time;
        self.decay_rate = rate_of(T::one().sub(self.sustain_level), decay_time, self.sample_rate);
    }

    /// Sets the sustain level, between zero and one. The decay and release
    /// rates stay as they are until their times are set again.
    pub fn set_sustain(&mut self, sustain_level: T)
        ensures
            final(self)@ == (AdsrState { sustain_level: sustain_level, ..old(self)@ }),
    {
        self.sustain_level = sustain_level;
    }

    /// Sets the release time, in seconds.
    pub fn set_release(&mut self, release_time: T)
        ensures
            old(self)@.sets_release(release_time, final(self)@),
    {
        self.release_time = release_time;
        self.release_rate = rate_of(self.sustain_level, release_time, self.sample_rate);
    }
}

impl<T: Sample> Generator<T> for Adsr<T> {
    open spec fn ticks(before: AdsrState<T>, after: AdsrState<T>, out: T) -> bool {
        &&& out == after.value
        &&& match before.state {
            EnvState::Attack => before.attacks(after),
            EnvState::Decay => before.decays(after),
            EnvState::Release => before.releases(after),
            EnvState::Sustain | EnvState::Idle => after == before,
        }
    }

    open spec fn resets(before: AdsrState<T>, after: AdsrState<T>) -> bool {
        &&& after.is_at_rest()
        &&& after == (AdsrState { state: EnvState::Idle, value: after.value, ..before })
    }

    open spec fn last_out_spec(state: AdsrState<T>) -> T {
        state.value
    }

    fn tick(&mut self) -> (out: T) {
        match self.state {
            EnvState::Attack => {
                let (value, reached) = rise(self.value, self.attack_rate, self.target);
                self.value = value;
                if reached {
                    self.target = self.sustain_level;
                    self.state = EnvState::Decay;
                }
                assert(is_risen(
                    old(self)@.value,
                    old(self)@.attack_rate,
                    old(self)@.target,
                    self@.value,
                    reached,
                ));
            },
            EnvState::Decay => {
                let (value, reached) = approach(self.value, self.decay_rate, self.sustain_level);
                self.value = value;
                if reached {
                    self.state = EnvState::Sustain;
                }
                assert(is_approached(
                    old(self)@.value,
                    old(self)@.decay_rate,
                    old(self)@.sustain_level,
                    self@.value,
                    reached,
                ));
            },
            EnvState::Release => {
                let zero = T::zero();
                let (value, reached) = fall(self.value, self.release_rate, zero);
                self.value = value;
                if reached {
                    self.state = EnvState::Idle;
                }
                assert(is_fallen(
                    old(self)@.value,
                    old(self)@.release_rate,
                    zero,
                    self@.value,
                    reached,
                ));
            },
            EnvState::Sustain | EnvState::Idle => {},
        }
        self.value
    }

    fn last_out(&self) -> (out: T) {
        self.value
    }

    fn reset(&mut self) {
        self.state = EnvState::Idle;
        self.value = T::zero();
    }
}

impl<T: Sample> EnvGenerator<T> for Adsr<T> {
    /// The envelope attacks, from whatever state.
    open spec fn gated_on(state: AdsrState<T>) -> AdsrState<T> {
        AdsrState { state: EnvState::Attack, ..state }
    }

    /// The envelope releases, unless it is idle.
    open spec fn gated_off(state: AdsrState<T>) -> AdsrState<T> {
        match state.state {
            EnvState::Idle => state,
            _ => AdsrState { state: EnvState::Release, ..state },
        }
    }

    fn gate_on(&mut self) {
        self.state = EnvState::Attack;
    }

    fn gate_off(&mut self) {
        match self.state {
            EnvState::Idle => {},
            _ => {
                self.state = EnvState::Release;
            },
        }
    }
}

} // verus!
