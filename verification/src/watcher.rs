use vstd::prelude::*;

verus! {

/// A value as it was sampled on the previous tick and on this one.
#[derive(Clone, Copy, Debug, PartialEq, Eq)]
pub struct Pair<T> {
    pub old: T,
    pub current: T,
}

impl<T> Pair<T> {
    /// An edge of the predicate `p`: it fails on the old value and holds on
    /// the current one.
    pub open spec fn rises(self, p: spec_fn(T) -> bool) -> bool {
        !p(self.old) && p(self.current)
    }

    /// The value has just become `to`.
    pub open spec fn turned(self, to: T) -> bool {
        self.rises(|t: T| t == to)
    }

    /// The value has just stopped being `from`.
    pub open spec fn left(self, from: T) -> bool {
        self.rises(|t: T| t != from)
    }

    /// Tells whether `f` has just become true: false of the old value, true
    /// of the current one. `f` is not asked about the current value once it
    /// has accepted the old one.
    pub fn check<F: Fn(&T) -> bool>(&self, f: F) -> (r: bool)
        requires
            call_requires(f, (&self.old,)),
            call_requires(f, (&self.current,)),
        ensures
            exists|was: bool|
                call_ensures(f, (&self.old,), was) && if was {
                    !r
                } else {
                    call_ensures(f, (&self.current,), r)
                },
    {
        !f(&self.old) && f(&self.current)
    }
}

/// A type of value that can be sampled: it names the value that stands in
/// for a sample that could not be read.
pub trait Sample: Copy {
    spec fn zero_value() -> Self;

    fn zero() -> (z: Self)
        ensures
            z == Self::zero_value(),
    ;
}

impl Sample for u8 {
    open spec fn zero_value() -> u8 {
        0
    }

    fn zero() -> u8 {
        0
    }
}

impl Sample for i32 {
    open spec fn zero_value() -> i32 {
        0
    }

    fn zero() -> i32 {
        0
    }
}

impl Sample for [u8; 7] {
    open spec fn zero_value() -> [u8; 7] {
        [0u8, 0u8, 0u8, 0u8, 0u8, 0u8, 0u8]
    }

    fn zero() -> [u8; 7] {
        [0u8, 0u8, 0u8, 0u8, 0u8, 0u8, 0u8]
    }
}

/// Remembers the last sample of one value, so that each new sample comes
/// paired with the one before it. The first sample has none before it and
/// only sets the watcher going: it counts as the zero of its type.
#[derive(Clone, Copy, Debug, PartialEq, Eq)]
pub struct Watcher<T> {
    /// `None` until the first sample has been taken.
    pub pair: Option<Pair<T>>,
}

impl<T: Sample> Watcher<T> {
    /// The pair that a sample of `value` produces: the last current value
    /// becomes the old one. On the first sample both values are the zero of
    /// the type, whatever `value` is.
    pub open spec fn next(self, value: T) -> Pair<T> {
        match self.pair {
            Some(pair) => Pair { old: pair.current, current: value },
            None => Pair { old: T::zero_value(), current: T::zero_value() },
        }
    }

    /// The value that was sampled last, if any was.
    pub open spec fn last(self) -> Option<T> {
        match self.pair {
            Some(pair) => Some(pair.current),
            None => None,
        }
    }

    /// A watcher that has not seen a sample yet.
    pub fn new() -> (w: Self)
        ensures
            w.pair is None,
    {
        Watcher { pair: None }
    }

    /// Pairs `value` with the last sample, without taking it in.
    pub fn peek(&self, value: T) -> (pair: Pair<T>)
        ensures
            pair == self.next(value),
    {
        match self.pair {
            Some(last) => Pair { old: last.current, current: value },
            None => Pair { old: T::zero(), current: T::zero() },
        }
    }

    /// Takes in the sample of this tick and returns it with its predecessor.
    pub fn update_infallible(&mut self, value: T) -> (pair: Pair<T>)
        ensures
            pair == old(self).next(value),
            final(self).pair == Some(pair),
    {
        let pair = self.peek(value);
        self.pair = Some(pair);
        pair
    }
}

} // verus!
