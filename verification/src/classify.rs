//! The error classifier: sorts the text of a submission or confirmation
//! failure into the three classes the engine acts on.
//!
//! Classification goes by markers in the text, matched as they are written
//! (upper and lower case differ). A sign that the identity is already
//! registered decides first; after that any sign of a failure that resolves
//! itself on a later attempt; every other text is fatal.

use vstd::prelude::*;
use crate::text::{mentions, occurs_in};

verus! {

/// What a failure means for the engine.
#[derive(Clone, Copy, Debug, PartialEq, Eq, Structural)]
pub enum ErrorClass {
    /// Expected to resolve itself on a later attempt, without the operator.
    Recoverable,
    /// The identity is already registered: a benign end, not a failure.
    AlreadyDone,
    /// Anything else. Reported at high severity; one attempt's failure never
    /// ends the engine.
    Fatal,
}

impl ErrorClass {
    /// Whether a failure of this class is reported at high severity: a
    /// fatal one is, the expected ones are not.
    pub fn is_severe(&self) -> (r: bool)
        ensures
            r == (*self == ErrorClass::Fatal),
    {
        match self {
            ErrorClass::Fatal => true,
            ErrorClass::Recoverable => false,
            ErrorClass::AlreadyDone => false,
        }
    }
}

/// Whether the text says that the identity is already registered.
pub open spec fn signals_already_done(text: Seq<char>) -> bool {
    occurs_in("AlreadyRegistered"@, text)
}

/// Whether the text names a failure that a later attempt is expected to get
/// past: the block's resource limits were exhausted, the transaction lost to
/// another with the same nonce, or it was rejected as stale or outdated.
pub open spec fn signals_recoverable(text: Seq<char>) -> bool {
    ||| occurs_in("ExhaustsResources"@, text)
    ||| occurs_in("exhaust the block limits"@, text)
    ||| occurs_in("Priority is too low"@, text)
    ||| occurs_in("Stale"@, text)
    ||| occurs_in("stale"@, text)
    ||| occurs_in("nonce"@, text)
    ||| occurs_in("outdated"@, text)
}

/// The class of a failure text.
pub open spec fn classification(text: Seq<char>) -> ErrorClass {
    if signals_already_done(text) {
        ErrorClass::AlreadyDone
    } else if signals_recoverable(text) {
        ErrorClass::Recoverable
    } else {
        ErrorClass::Fatal
    }
}

/// Classifies the text of a submission or confirmation failure.
pub fn classify(raw_error: &str) -> (r: ErrorClass)
    ensures
        r == classification(raw_error@),
{
    proof {
        reveal_strlit("AlreadyRegistered");
        reveal_strlit("ExhaustsResources");
        reveal_strlit("exhaust the block limits");
        reveal_strlit("Priority is too low");
        reveal_strlit("Stale");
        reveal_strlit("stale");
        reveal_strlit("nonce");
        reveal_strlit("outdated");
    }
    if mentions(raw_error, "AlreadyRegistered") {
        ErrorClass::AlreadyDone
    } else if mentions(raw_error, "ExhaustsResources") || mentions(
        raw_error,
        "exhaust the block limits",
    ) || mentions(raw_error, "Priority is too low") || mentions(raw_error, "Stale") || mentions(
        raw_error,
        "stale",
    ) || mentions(raw_error, "nonce") || mentions(raw_error, "outdated") {
        ErrorClass::Recoverable
    } else {
        ErrorClass::Fatal
    }
}

/// A failure text that mentions a nonce, and does not say that the identity
/// is already registered, is recoverable.
pub proof fn lemma_nonce_is_recoverable(text: Seq<char>)
    requires
        occurs_in("nonce"@, text),
        !signals_already_done(text),
    ensures
        classification(text) == ErrorClass::Recoverable,
{
}

/// A failure text that says the identity is already registered is classified
/// so, whatever else it holds.
pub proof fn lemma_already_registered_is_done(text: Seq<char>)
    requires
        occurs_in("AlreadyRegistered"@, text),
    ensures
        classification(text) == ErrorClass::AlreadyDone,
{
}

/// A failure text with none of the markers is fatal.
pub proof fn lemma_unmarked_is_fatal(text: Seq<char>)
    requires
        !signals_already_done(text),
        !signals_recoverable(text),
    ensures
        classification(text) == ErrorClass::Fatal,
{
}

} // verus!
