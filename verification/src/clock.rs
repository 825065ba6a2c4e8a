//! The current time, as the runtime reports it.

use vstd::prelude::*;
use anchor_lang::prelude::Clock;
use anchor_lang::prelude::ProgramError;
use anchor_lang::prelude::SolanaSysvar;
use crate::errors::AuctionErrors;

verus! {

/// The runtime's error type, `anchor_lang::prelude::ProgramError`. It is only
/// carried from the clock to `time_from`, which turns it into an error of
/// this library.
#[verifier::external_type_specification]
#[verifier::external_body]
pub struct ExProgramError(ProgramError);

/// Calls `Clock::get()` of `anchor_lang` and hands back the `unix_timestamp` of
/// the clock it got, or the error that the runtime gave. Nothing is claimed of
/// either: the time differs from call to call, and outside a running program
/// the runtime has no clock to give.
#[verifier::external_body]
fn read_unix_timestamp() -> (r: Result<i64, ProgramError>) {
    Clock::get().map(|clock| clock.unix_timestamp)
}

/// The current time, or `ClockUnavailable` where the runtime gave none.
pub fn current_time() -> (r: Result<i64, AuctionErrors>)
    ensures
        r is Err ==> r == Err::<i64, AuctionErrors>(AuctionErrors::ClockUnavailable),
{
    time_from(read_unix_timestamp())
}

/// What a reading of the clock stands for: the time that was read, or
/// `ClockUnavailable` for whatever error the runtime gave in its place.
pub fn time_from(reading: Result<i64, ProgramError>) -> (r: Result<i64, AuctionErrors>)
    ensures
        match reading {
            Ok(now) => r == Ok::<i64, AuctionErrors>(now),
            Err(_) => r == Err::<i64, AuctionErrors>(AuctionErrors::ClockUnavailable),
        },
{
    match reading {
        Ok(now) => Ok(now),
        Err(_) => Err(AuctionErrors::ClockUnavailable),
    }
}

} // verus!
