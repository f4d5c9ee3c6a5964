//! A scalar held inside an inclusive range, with a reaction that is told by how
//! much an update would have left that range.

use vstd::prelude::*;

verus! {

/// `raw` brought into the inclusive range `[min, max]`.
pub open spec fn clamped(raw: int, min: int, max: int) -> int {
    if raw < min {
        min
    } else if raw > max {
        max
    } else {
        raw
    }
}

/// The signed amount by which `raw` lies outside `[min, max]`: negative below
/// the floor, positive above the ceiling, zero inside the range.
pub open spec fn overflow_amount(raw: int, min: int, max: int) -> int {
    if raw < min {
        raw - min
    } else if raw > max {
        raw - max
    } else {
        0
    }
}

/// The value of a stat with the range `[min, max]` that started at `value` and
/// was updated with each of `deltas` in turn, the first of them first.
pub open spec fn updated_all(value: int, min: int, max: int, deltas: Seq<int>) -> int
    decreases deltas.len(),
{
    if deltas.len() == 0 {
        value
    } else {
        clamped(updated_all(value, min, max, deltas.drop_last()) + deltas.last(), min, max)
    }
}

/// The additive identity of `isize`, taken from `num_traits::Zero::zero`, whose
/// implementation for `isize` returns the literal `0`.
#[verifier::external_body]
fn additive_identity() -> (zero: isize)
    ensures
        zero == 0,
{
    num_traits::Zero::zero()
}

/// Brings `*value` into `[min, max]` and returns the amount by which it lay
/// outside: `*value - min` (negative) below the floor, `*value - max`
/// (positive) above the ceiling, zero when it was already inside.
pub fn clamp_and_overflow(value: &mut isize, min: isize, max: isize) -> (overflow: isize)
    requires
        min <= max,
        isize::MIN <= overflow_amount(*old(value) as int, min as int, max as int) <= isize::MAX,
    ensures
        *final(value) == clamped(*old(value) as int, min as int, max as int),
        overflow == overflow_amount(*old(value) as int, min as int, max as int),
{
    if *value < min {
        let d: isize = *value - min;
        *value = min;
        d
    } else if *value > max {
        let d: isize = *value - max;
        *value = max;
        d
    } else {
        additive_identity()
    }
}

/// What a stat does when an update would have left its range: a strategy
/// object, held by the stat, that is told the signed overflow amount.
pub trait OverflowReaction {
    /// What the reaction hands back to whoever updated the stat.
    type Outcome;

    /// Reacts to an update that left the range by `amount`. A stat never calls
    /// this with zero: touching a bound exactly is no overflow.
    fn react(&self, amount: isize) -> (outcome: Self::Outcome)
        requires
            amount != 0,
    ;
}

/// Whether `outcome` can be what `reaction` answers to `amount`, as the
/// contract of its `react` has it.
pub open spec fn reacted<R: OverflowReaction>(
    reaction: R,
    amount: isize,
    outcome: R::Outcome,
) -> bool {
    call_ensures(R::react, (&reaction, amount), outcome)
}

/// A part of a whole, as two unsigned integers: the fraction
/// `numerator / denominator`.
#[derive(Clone, Copy, PartialEq, Eq, Debug, Structural)]
pub struct Fraction {
    pub numerator: usize,
    pub denominator: usize,
}

impl Fraction {
    /// Whether this is a fraction between nought and one, both included.
    pub open spec fn is_proper(&self) -> bool {
        self.numerator <= self.denominator && self.denominator > 0
    }

    /// Whether this fraction is nought.
    pub open spec fn is_zero(&self) -> bool {
        self.numerator == 0 && self.denominator > 0
    }

    /// Whether this fraction is one.
    pub open spec fn is_one(&self) -> bool {
        self.numerator == self.denominator && self.denominator > 0
    }
}

/// The mathematical content of a [`Stat`].
pub struct StatView<R> {
    pub value: int,
    pub min: int,
    pub max: int,
    pub reaction: R,
}

impl<R> StatView<R> {
    /// The amount by which the sum of the value and `delta` lies outside the range.
    pub open spec fn overflow(self, delta: int) -> int {
        overflow_amount(self.value + delta, self.min, self.max)
    }

    /// The stat after an update with `delta`: the sum of the value and
    /// `delta`, clamped into the range, which stays as it is.
    pub open spec fn updated(self, delta: int) -> Self {
        StatView { value: clamped(self.value + delta, self.min, self.max), ..self }
    }
}

/// A scalar kept inside `[min, max]`, with the reaction to updates that would
/// have left that range.
pub struct Stat<R: OverflowReaction> {
    value: isize,
    min: isize,
    max: isize,
    reaction: R,
}

impl<R: OverflowReaction> View for Stat<R> {
    type V = StatView<R>;

    closed spec fn view(&self) -> StatView<R> {
        StatView {
            value: self.value as int,
            min: self.min as int,
            max: self.max as int,
            reaction: self.reaction,
        }
    }
}

impl<R: OverflowReaction> Stat<R> {
    /// The invariant of every stat: the value lies inside the range.
    #[verifier::type_invariant]
    pub open spec fn in_range(self) -> bool {
        self@.min <= self@.value <= self@.max
    }

    /// A stat with the range `[min, max]` that starts at `value`, or at the
    /// bound nearest to it where `value` lies outside the range. No reaction
    /// is invoked: nothing was updated yet.
    pub fn new(value: isize, min: isize, max: isize, reaction: R) -> (stat: Self)
        requires
            min <= max,
        ensures
            stat@ == (StatView {
                value: clamped(value as int, min as int, max as int),
                min: min as int,
                max: max as int,
                reaction,
            }),
    {
        let start: isize = if value < min {
            min
        } else if value > max {
            max
        } else {
            value
        };
        Stat { value: start, min, max, reaction }
    }

    /// The current value, which lies inside the range.
    pub fn value(&self) -> (value: isize)
        ensures
            value == self@.value,
            self@.min <= value <= self@.max,
    {
        proof {
            use_type_invariant(self);
        }
        self.value
    }

    /// The floor of the range.
    pub fn min(&self) -> (min: isize)
        ensures
            min == self@.min,
            min <= self@.max,
    {
        proof {
            use_type_invariant(self);
        }
        self.min
    }

    /// The ceiling of the range.
    pub fn max(&self) -> (max: isize)
        ensures
            max == self@.max,
            self@.min <= max,
    {
        proof {
            use_type_invariant(self);
        }
        self.max
    }

    /// How far the value has come on the way from the floor to the ceiling:
    /// `value - min` over `max - min`, a fraction between nought and one. A
    /// range of zero width has no such fraction.
    pub fn fraction(&self) -> (part: Fraction)
        requires
            self@.min < self@.max,
        ensures
            part.numerator == self@.value - self@.min,
            part.denominator == self@.max - self@.min,
            part.is_proper(),
            part.is_zero() <==> self@.value == self@.min,
            part.is_one() <==> self@.value == self@.max,
    {
        proof {
            use_type_invariant(self);
        }
        let covered: i128 = self.value as i128 - self.min as i128;
        let width: i128 = self.max as i128 - self.min as i128;
        Fraction { numerator: covered as usize, denominator: width as usize }
    }

    /// Adds `delta` to the value and clamps the sum into the range. When the
    /// sum lay outside the range the reaction is invoked with the overflow
    /// amount and its answer is returned; when the sum lay inside, bounds
    /// included, the reaction is not invoked and `None` is returned.
    pub fn value_update(&mut self, delta: isize) -> (outcome: Option<R::Outcome>)
        ensures
            final(self)@ == old(self)@.updated(delta as int),
            final(self)@.min <= final(self)@.value <= final(self)@.max,
            isize::MIN <= old(self)@.overflow(delta as int) <= isize::MAX,
            match outcome {
                None => old(self)@.overflow(delta as int) == 0,
                Some(answer) => old(self)@.overflow(delta as int) != 0 && reacted(
                    old(self)@.reaction,
                    old(self)@.overflow(delta as int) as isize,
                    answer,
                ),
            },
    {
        proof {
            use_type_invariant(&*self);
        }
        let overflow: isize = match self.value.checked_add(delta) {
            Some(raw) => {
                let mut updated: isize = raw;
                let d: isize = clamp_and_overflow(&mut updated, self.min, self.max);
                self.value = updated;
                d
            },
            None => {
                // The sum does not fit the machine word, so it lies beyond the
                // bound on the side that `delta` points to.
                if delta > 0 {
                    let d: isize = delta - (self.max - self.value);
                    self.value = self.max;
                    d
                } else {
                    let d: isize = delta + (self.value - self.min);
                    self.value = self.min;
                    d
                }
            },
        };
        if overflow != 0 {
            Some(self.reaction.react(overflow))
        } else {
            None
        }
    }
}

/// Whatever updates a stat has been through, after each of them its value
/// lies inside the range.
pub proof fn lemma_updates_stay_in_range(value: int, min: int, max: int, deltas: Seq<int>)
    requires
        min <= max,
        deltas.len() > 0,
    ensures
        min <= updated_all(value, min, max, deltas) <= max,
{
}

/// An update whose sum lands exactly on a bound is no overflow: the value
/// becomes that bound and the overflow amount is zero, so that the reaction
/// is not invoked.
pub proof fn lemma_bound_is_no_overflow(value: int, delta: int, min: int, max: int)
    requires
        min <= max,
        value + delta == min || value + delta == max,
    ensures
        clamped(value + delta, min, max) == value + delta,
        overflow_amount(value + delta, min, max) == 0,
{
}

} // verus!
