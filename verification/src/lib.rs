//! Extracting the sole element of a sequence-like value.
//!
//! A sequence is classified by its first two probes alone: no first element
//! means [`Error::NoElements`], a first but no second element means the single
//! element is handed back, and a second element means
//! [`Error::MultipleElements`], whatever lies beyond it.

use vstd::prelude::*;

verus! {

/// Failure of [`Single::single`]: the sequence did not hold exactly one element.
#[derive(Clone, Copy, Debug, PartialEq, Eq, Structural)]
pub enum Error {
    /// Asked an empty sequence for its single element.
    NoElements,
    /// Asked a sequence with more than one element for its single element.
    MultipleElements,
}

/// The fixed description of each error kind, as a sequence of characters.
pub open spec fn description_of(e: Error) -> Seq<char> {
    match e {
        Error::NoElements => "Called single() on empty iterator"@,
        Error::MultipleElements => "Called single() on multiple-element iterator"@,
    }
}

impl Error {
    /// The fixed, human-readable description of this error kind.
    pub fn description(&self) -> (s: &'static str)
        ensures
            s@ == description_of(*self),
    {
        match self {
            Error::NoElements => "Called single() on empty iterator",
            Error::MultipleElements => "Called single() on multiple-element iterator",
        }
    }
}

/// Classification of a sequence from its first two probes: the element where
/// there is a first but no second, an error otherwise.
pub open spec fn single_outcome<T>(first: Option<T>, second: Option<T>) -> Result<T, Error> {
    match first {
        None => Err(Error::NoElements),
        Some(element) => match second {
            None => Ok(element),
            Some(_) => Err(Error::MultipleElements),
        },
    }
}

/// What the fallback forms return: the single element where there is one, the
/// caller's default otherwise.
pub open spec fn fallback_outcome<T>(first: Option<T>, second: Option<T>, default: T) -> T {
    match single_outcome(first, second) {
        Ok(element) => element,
        Err(_) => default,
    }
}

/// Classify two probes. Every extraction form reduces to this one decision.
pub fn single_from_probes<T>(first: Option<T>, second: Option<T>) -> (r: Result<T, Error>)
    ensures
        r == single_outcome(first, second),
{
    match first {
        None => Err(Error::NoElements),
        Some(element) => match second {
            None => Ok(element),
            Some(_) => Err(Error::MultipleElements),
        },
    }
}

/// The eager fallback over an already-classified outcome.
pub fn or_default<T>(outcome: Result<T, Error>, default: T) -> (r: T)
    ensures
        r == (match outcome {
            Ok(element) => element,
            Err(_) => default,
        }),
{
    match outcome {
        Ok(element) => element,
        Err(_) => default,
    }
}

/// The lazy fallback over an already-classified outcome: `default_fn` runs
/// only when the outcome is an error.
pub fn or_else_default<T, F: FnOnce() -> T>(outcome: Result<T, Error>, default_fn: F) -> (r: T)
    requires
        call_requires(default_fn, ()),
    ensures
        (outcome matches Ok(element) ==> r == element),
        (outcome is Err ==> call_ensures(default_fn, (), r)),
{
    match outcome {
        Ok(element) => element,
        Err(_) => default_fn(),
    }
}

/// A sequence-like value from which the sole element can be extracted.
///
/// An implementor says, in specification terms, which first and second
/// elements it would yield; every contract below speaks of those two probes
/// and of nothing further.
pub trait Single: Sized {
    /// The element type the sequence yields.
    type Item;

    /// The first element the sequence yields, if any.
    spec fn probe_first(self) -> Option<Self::Item>;

    /// The second element the sequence yields, if any.
    spec fn probe_second(self) -> Option<Self::Item>;

    /// Extract the single element, or say why there is none.
    fn single(self) -> (r: Result<Self::Item, Error>)
        ensures
            r == single_outcome(self.probe_first(), self.probe_second()),
    ;

    /// Extract the single element; where there is none, hand back `default`.
    fn single_or(self, default: Self::Item) -> (r: Self::Item)
        ensures
            r == fallback_outcome(self.probe_first(), self.probe_second(), default),
    ;

    /// Extract the single element; where there is none, hand back what
    /// `default_fn` produces. The producer runs only in that case.
    fn single_or_else<F: FnOnce() -> Self::Item>(self, default_fn: F) -> (r: Self::Item)
        requires
            call_requires(default_fn, ()),
        ensures
            (single_outcome(self.probe_first(), self.probe_second()) matches Ok(element)
                ==> r == element),
            (single_outcome(self.probe_first(), self.probe_second()) is Err
                ==> call_ensures(default_fn, (), r)),
    ;

    /// Extract the element of a sequence known to hold exactly one. The
    /// abrupt, opt-in form: callers must establish the classification first.
    fn single_exact(self) -> (r: Self::Item)
        requires
            self.probe_first() is Some,
            self.probe_second() is None,
        ensures
            Some(r) == self.probe_first(),
    ;
}

/// First probe of a finite sequence.
pub open spec fn seq_first<T>(s: Seq<T>) -> Option<T> {
    if s.len() == 0 {
        None
    } else {
        Some(s[0])
    }
}

/// Second probe of a finite sequence.
pub open spec fn seq_second<T>(s: Seq<T>) -> Option<T> {
    if s.len() < 2 {
        None
    } else {
        Some(s[1])
    }
}

impl<T> Single for Vec<T> {
    type Item = T;

    open spec fn probe_first(self) -> Option<T> {
        seq_first(self@)
    }

    open spec fn probe_second(self) -> Option<T> {
        seq_second(self@)
    }

    fn single(self) -> (r: Result<T, Error>) {
        let mut v = self;
        let first = if v.len() > 0 {
            Some(v.remove(0))
        } else {
            None
        };
        let second = if v.len() > 0 {
            Some(v.remove(0))
        } else {
            None
        };
        single_from_probes(first, second)
    }

    fn single_or(self, default: T) -> (r: T) {
        or_default(self.single(), default)
    }

    fn single_or_else<F: FnOnce() -> T>(self, default_fn: F) -> (r: T) {
        or_else_default(self.single(), default_fn)
    }

    fn single_exact(self) -> (r: T) {
        match self.single() {
            Ok(element) => element,
            Err(_) => unreached(),
        }
    }
}

/// A sequence that yields `element` endlessly: every probe produces it, so
/// extraction always stops at the second probe, reading nothing further.
pub struct Repeat<T> {
    /// The element yielded at every probe.
    pub element: T,
}

impl<T: Clone> Single for Repeat<T> {
    type Item = T;

    open spec fn probe_first(self) -> Option<T> {
        Some(self.element)
    }

    open spec fn probe_second(self) -> Option<T> {
        Some(self.element)
    }

    fn single(self) -> (r: Result<T, Error>) {
        let first = self.element.clone();
        single_from_probes(Some(first), Some(self.element))
    }

    fn single_or(self, default: T) -> (r: T) {
        or_default(self.single(), default)
    }

    fn single_or_else<F: FnOnce() -> T>(self, default_fn: F) -> (r: T) {
        or_else_default(self.single(), default_fn)
    }

    fn single_exact(self) -> (r: T) {
        unreached()
    }
}

/// A sequence of length 0 classifies as `NoElements`, and the fallback forms
/// hand back the caller's default.
pub proof fn lemma_empty_sequence<T>(s: Seq<T>, default: T)
    requires
        s.len() == 0,
    ensures
        single_outcome(seq_first(s), seq_second(s)) == Err::<T, Error>(Error::NoElements),
        fallback_outcome(seq_first(s), seq_second(s), default) == default,
{
}

/// A sequence of length 1 yields its element under every form.
pub proof fn lemma_singleton_sequence<T>(s: Seq<T>, default: T)
    requires
        s.len() == 1,
    ensures
        single_outcome(seq_first(s), seq_second(s)) == Ok::<T, Error>(s[0]),
        fallback_outcome(seq_first(s), seq_second(s), default) == s[0],
{
}

/// A sequence of length 2 or more classifies as `MultipleElements`, however
/// long it is, and the fallback forms hand back the caller's default.
pub proof fn lemma_longer_sequence<T>(s: Seq<T>, default: T)
    requires
        s.len() >= 2,
    ensures
        single_outcome(seq_first(s), seq_second(s)) == Err::<T, Error>(Error::MultipleElements),
        fallback_outcome(seq_first(s), seq_second(s), default) == default,
{
}

/// An endless repetition never holds exactly one element: whatever it
/// repeats, both probes answer, and classification is `MultipleElements`.
pub proof fn lemma_repeat_is_multiple<T: Clone>(r: Repeat<T>, default: T)
    ensures
        single_outcome(r.probe_first(), r.probe_second()) == Err::<T, Error>(
            Error::MultipleElements,
        ),
        fallback_outcome(r.probe_first(), r.probe_second(), default) == default,
{
}

/// Classification is a pure function of the first two probes: sequences that
/// agree on those agree on every outcome, whatever they hold beyond them.
pub proof fn lemma_outcome_ignores_tail<T>(s: Seq<T>, t: Seq<T>, default: T)
    requires
        seq_first(s) == seq_first(t),
        seq_second(s) == seq_second(t),
    ensures
        single_outcome(seq_first(s), seq_second(s)) == single_outcome(seq_first(t), seq_second(t)),
        fallback_outcome(seq_first(s), seq_second(s), default) == fallback_outcome(
            seq_first(t),
            seq_second(t),
            default,
        ),
{
}

} // verus!
