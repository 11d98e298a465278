use anchor_lang::prelude::Clock;
use anchor_lang::prelude::ProgramError;
use anchor_lang::prelude::SolanaSysvar;
use vstd::prelude::*;

verus! {

/// The error of the runtime, `ProgramError` of `anchor_lang`, as a type that
/// is carried through and never looked into.
#[verifier::external_type_specification]
#[verifier::external_body]
pub struct ExProgramError(anchor_lang::prelude::ProgramError);

/// Why an operation that runs at the current time did nothing.
#[derive(Debug, PartialEq, Eq)]
pub enum Failure<E> {
    /// The time could not be read; the runtime's own error says why.
    ClockUnavailable(ProgramError),
    /// The operation refused.
    Refused(E),
}

/// The current time in seconds since the Unix epoch, as the runtime's clock
/// gives it, or the runtime's error where the clock cannot be read.
///
/// Not verified: this calls `Clock::get` of `anchor_lang` and hands on the
/// `unix_timestamp` of what it returns, or its error. Nothing is claimed of
/// the outcome, which depends on where and when the call is made.
#[verifier::external_body]
pub(crate) fn unix_timestamp() -> (now: Result<i64, ProgramError>) {
    match Clock::get() {
        Ok(clock) => Ok(clock.unix_timestamp),
        Err(error) => Err(error),
    }
}

} // verus!
