//! The ledger time, as the host reports it.

use anchor_lang::solana_program::clock::Clock;
use anchor_lang::solana_program::program_error::ProgramError;
use anchor_lang::solana_program::sysvar::Sysvar;
use vstd::prelude::*;

verus! {

/// The error type of `solana_program`; nothing is known of a value of it.
#[verifier::external_type_specification]
#[verifier::external_body]
pub struct ExProgramError(ProgramError);

/// Calls `Clock::get` of `solana_program` and hands out the `unix_timestamp`
/// of the clock that it returns, or its error. Trusted, and nothing is
/// claimed: the host decides what comes back.
#[verifier::external_body]
fn ledger_unix_timestamp() -> (reading: Result<i64, ProgramError>) {
    match Clock::get() {
        Ok(clock) => Ok(clock.unix_timestamp),
        Err(e) => Err(e),
    }
}

/// The ledger time in seconds since the epoch, where the host tells it.
///
/// Nothing is promised of the result: the host decides it. What becomes of
/// each answer of the host is said by [`time_of`].
pub(crate) fn read_ledger_time() -> Option<i64> {
    time_of(ledger_unix_timestamp())
}

/// The time that an answer of the host tells: its timestamp, or nothing where
/// the answer is an error.
pub(crate) fn time_of(reading: Result<i64, ProgramError>) -> (time: Option<i64>)
    ensures
        match reading {
            Ok(timestamp) => time == Some(timestamp),
            Err(_) => time is None,
        },
{
    match reading {
        Ok(timestamp) => Some(timestamp),
        Err(_) => None,
    }
}

} // verus!
