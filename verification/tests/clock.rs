use anchor_lang::prelude::ProgramError;
use english_auction::clock::{current_time, time_from};
use english_auction::errors::AuctionErrors;

#[test]
fn time_from_keeps_the_time_that_was_read() {
    assert_eq!(time_from(Ok(0)), Ok(0));
    assert_eq!(time_from(Ok(1_700_000_000)), Ok(1_700_000_000));
    assert_eq!(time_from(Ok(-1)), Ok(-1));
    assert_eq!(time_from(Ok(i64::MAX)), Ok(i64::MAX));
    assert_eq!(time_from(Ok(i64::MIN)), Ok(i64::MIN));
}

#[test]
fn time_from_reports_every_error_as_no_clock() {
    assert_eq!(
        time_from(Err(ProgramError::UnsupportedSysvar)),
        Err(AuctionErrors::ClockUnavailable)
    );
    assert_eq!(
        time_from(Err(ProgramError::InvalidArgument)),
        Err(AuctionErrors::ClockUnavailable)
    );
    assert_eq!(time_from(Err(ProgramError::Custom(7))), Err(AuctionErrors::ClockUnavailable));
}

#[test]
fn current_time_finds_no_clock_outside_a_running_program() {
    assert_eq!(current_time(), Err(AuctionErrors::ClockUnavailable));
}
