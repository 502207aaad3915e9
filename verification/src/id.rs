//! The identity value: a machine word that is never zero.

use vstd::prelude::*;
use core::cmp::Ordering;
use crate::strategy::Strategy;

verus! {

/// The word that stands in for a native identity of zero.
pub const ZERO_SUBSTITUTE: usize = usize::MAX;

/// A value that identifies a running thread among the threads alive with it.
///
/// Two reads on one thread are equal. Two reads on threads that are alive
/// at the same time differ. Once a thread has ended, a later thread may get
/// its value again. The word means nothing outside the process, and nothing
/// to another build of this library.
#[derive(Debug, Clone, Copy, PartialEq, Eq, Structural, Ord, Hash)]
pub struct ThrId {
    word: usize,
}

impl View for ThrId {
    type V = usize;

    closed spec fn view(&self) -> usize {
        self.word
    }
}

/// Calls `thread_id::get`, which asks the operating system for the calling
/// thread's own identity and hands it back as a machine word. The word
/// depends on the thread that calls, and it may be zero, so nothing is
/// claimed of it.
#[verifier::external_body]
fn native_thread_word() -> usize {
    thread_id::get()
}

impl ThrId {
    #[verifier::type_invariant]
    closed spec fn nonzero(self) -> bool {
        self.word != 0
    }

    /// The identity that belongs to a native thread identity `raw`: `raw`
    /// itself, except that zero becomes the reserved substitute.
    pub open spec fn spec_from_native(raw: usize) -> usize {
        if raw == 0 {
            ZERO_SUBSTITUTE
        } else {
            raw
        }
    }

    /// Packages a native thread identity, which may legally be zero.
    pub fn from_native(raw: usize) -> (id: ThrId)
        ensures
            id@ == Self::spec_from_native(raw),
            id@ != 0,
    {
        if raw == 0 {
            ThrId { word: ZERO_SUBSTITUTE }
        } else {
            ThrId { word: raw }
        }
    }

    /// Packages a word that a source hands out as non-zero by itself: an
    /// address, a register's content, a system identifier. Zero is refused.
    pub fn from_word(raw: usize) -> (id: Option<ThrId>)
        ensures
            id is Some <==> raw != 0,
            id is Some ==> id->0@ == raw,
    {
        if raw == 0 {
            None
        } else {
            Some(ThrId { word: raw })
        }
    }

    /// The identity that `strategy` makes of the word `raw` that it read, if
    /// it makes one: the POSIX query substitutes for zero, every other source
    /// has no identity for it.
    pub open spec fn spec_package(strategy: Strategy, raw: usize) -> Option<usize> {
        if strategy == Strategy::NativePosix {
            Some(Self::spec_from_native(raw))
        } else if raw != 0 {
            Some(raw)
        } else {
            None
        }
    }

    /// Packages the word `raw` that was read by `strategy`.
    pub fn package(strategy: Strategy, raw: usize) -> (id: Option<ThrId>)
        ensures
            id is Some <==> Self::spec_package(strategy, raw) is Some,
            id is Some ==> id->0@ == Self::spec_package(strategy, raw)->0,
            id is Some ==> id->0@ != 0,
    {
        match strategy {
            Strategy::NativePosix => Some(Self::from_native(raw)),
            _ => Self::from_word(raw),
        }
    }

    /// The identity of the calling thread, read through the operating
    /// system's own query and packaged by [`ThrId::from_native`].
    pub fn get() -> (id: ThrId)
        ensures
            id@ != 0,
    {
        Self::from_native(native_thread_word())
    }

    /// The underlying integer, which is never zero.
    pub fn value(self) -> (raw: usize)
        ensures
            raw == self@,
            raw != 0,
    {
        proof {
            use_type_invariant(&self);
        }
        self.word
    }
}

impl PartialOrd for ThrId {
    fn partial_cmp(&self, other: &ThrId) -> (order: Option<Ordering>) {
        if self.word < other.word {
            Some(Ordering::Less)
        } else if self.word == other.word {
            Some(Ordering::Equal)
        } else {
            Some(Ordering::Greater)
        }
    }
}

impl vstd::std_specs::cmp::PartialOrdSpecImpl for ThrId {
    open spec fn obeys_partial_cmp_spec() -> bool {
        true
    }

    open spec fn partial_cmp_spec(&self, other: &ThrId) -> Option<Ordering> {
        if self@ < other@ {
            Some(Ordering::Less)
        } else if self@ == other@ {
            Some(Ordering::Equal)
        } else {
            Some(Ordering::Greater)
        }
    }
}

impl From<ThrId> for usize {
    fn from(id: ThrId) -> (raw: usize) {
        id.value()
    }
}

impl vstd::std_specs::convert::FromSpecImpl<ThrId> for usize {
    open spec fn obeys_from_spec() -> bool {
        true
    }

    open spec fn from_spec(id: ThrId) -> usize {
        id@
    }
}

impl PartialEq<usize> for ThrId {
    fn eq(&self, raw: &usize) -> (same: bool) {
        self.word == *raw
    }
}

impl vstd::std_specs::cmp::PartialEqSpecImpl<usize> for ThrId {
    open spec fn obeys_eq_spec() -> bool {
        true
    }

    open spec fn eq_spec(&self, raw: &usize) -> bool {
        self@ == *raw
    }
}

impl PartialEq<ThrId> for usize {
    fn eq(&self, id: &ThrId) -> (same: bool) {
        *self == id.word
    }
}

impl vstd::std_specs::cmp::PartialEqSpecImpl<ThrId> for usize {
    open spec fn obeys_eq_spec() -> bool {
        true
    }

    open spec fn eq_spec(&self, id: &ThrId) -> bool {
        *self == id@
    }
}

/// Two identities are equal exactly when their words are.
pub proof fn lemma_equality_is_by_word(a: ThrId, b: ThrId)
    ensures
        a == b <==> a@ == b@,
{
}

/// Two native words that differ, neither of them the reserved substitute,
/// are packaged as identities that differ.
pub proof fn lemma_native_words_stay_apart(first: usize, second: usize)
    requires
        first != second,
        first != ZERO_SUBSTITUTE,
        second != ZERO_SUBSTITUTE,
    ensures
        ThrId::spec_from_native(first) != ThrId::spec_from_native(second),
{
}

/// Whatever source read it, a non-zero word is packaged as itself; so two
/// non-zero words that differ are packaged as identities that differ.
pub proof fn lemma_package_keeps_words(strategy: Strategy, first: usize, second: usize)
    requires
        first != 0,
        second != 0,
    ensures
        ThrId::spec_package(strategy, first) == Some(first),
        ThrId::spec_package(strategy, second) == Some(second),
        first != second ==> ThrId::spec_package(strategy, first) != ThrId::spec_package(
            strategy,
            second,
        ),
{
}

} // verus!
